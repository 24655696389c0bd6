pub mod config;
pub mod engine;
pub mod laws;
pub mod rng;
pub mod text;

pub use config::ConfigModel;
pub use config::ContentTemplate;
pub use engine::generate_file;
pub use engine::run;
pub use engine::DeptPlan;
pub use engine::FilePlan;
pub use engine::GenError;
pub use engine::Plan;
pub use engine::YearPlan;
