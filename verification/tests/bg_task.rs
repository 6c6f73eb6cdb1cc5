use mcmc_demo::bg_task::{BgCommunicate, BgTask as SimpleBgTask};
use mcmc_demo::helpers::bg_task::{BackgroundTaskManager, BgTask, StepReport};

#[test]
fn manager_reports_progress() {
    let mut m = BackgroundTaskManager::new(10);
    assert!(matches!(m.current_progress(), StepReport::Pending { completed: 0, total: 10 }));
    assert!(!m.update_progress_and_check_abort(4));
    assert!(matches!(m.current_progress(), StepReport::Pending { completed: 4, total: 10 }));
    m.mark_as_finished();
    assert!(matches!(m.current_progress(), StepReport::Finished));
}

#[test]
fn manager_clones_share_abort() {
    let mut ui_side = BackgroundTaskManager::new(3);
    let mut job_side = ui_side.clone();
    assert!(!job_side.update_progress_and_check_abort(1));
    ui_side.request_abort();
    assert!(job_side.update_progress_and_check_abort(2));
    assert!(matches!(ui_side.current_progress(), StepReport::Pending { completed: 2, total: 3 }));
}

#[test]
fn executed_task_is_marked_finished() {
    let m = BackgroundTaskManager::new(5);
    let observer = m.clone();
    let out = (|mut c: BackgroundTaskManager| {
        let mut done = 0;
        for step in 0..5 {
            if c.update_progress_and_check_abort(step) {
                break;
            }
            done += 1;
        }
        done
    })
    .execute(m);
    assert_eq!(out, 5);
    assert!(matches!(observer.current_progress(), StepReport::Finished));
}

#[test]
fn communicate_reports_steps() {
    let mut c = BgCommunicate::new(8);
    assert_eq!(c.progress_steps(), (0, 8));
    assert!(!c.checkup_bg(8));
    assert_eq!(c.progress_steps(), (8, 8));
    let mut other = c.clone();
    other.abort();
    assert!(c.checkup_bg(8));
}

#[test]
fn communicate_task_runs_closure() {
    let c = BgCommunicate::new(2);
    let watch = c.clone();
    let r = (|mut c: BgCommunicate| c.checkup_bg(1)).execute(c);
    assert!(!r);
    assert_eq!(watch.progress_steps(), (1, 2));
}

#[test]
fn report_from_flags() {
    assert!(matches!(StepReport::from_flags(true, 3, 9), StepReport::Finished));
    assert!(matches!(
        StepReport::from_flags(false, 3, 9),
        StepReport::Pending { completed: 3, total: 9 }
    ));
}
