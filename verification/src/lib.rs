pub mod human;
pub mod size;

pub use human::convert_to_human_bytes;
pub use human::EXBIBYTE;
pub use human::GIBIBYTE;
pub use human::KIBIBYTE;
pub use human::MEBIBYTE;
pub use human::PEBIBYTE;
pub use human::TEBIBYTE;
pub use size::get_size_in_abbr_human_bytes;
pub use size::get_size_in_bytes;
pub use size::get_size_in_human_bytes;
pub use size::size_of_tree;
pub use size::Entry;
pub use size::IoError;
pub use size::Probe;
