pub mod laws;
pub mod page;
pub mod text;
pub mod wrapper;

pub use page::Page;
pub use wrapper::QueryWrapper;
