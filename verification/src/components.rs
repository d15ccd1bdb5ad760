pub mod loading;

pub use loading::Loading;
