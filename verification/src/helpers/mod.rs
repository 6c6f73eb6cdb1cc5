pub mod async_last_task_processor;
pub mod bg_task;
pub mod owning_watch_channel;
