pub mod task_data;
pub mod task_err;
pub mod task_ok;
pub mod task_results;
pub mod task_suite;
pub mod validation_result;
