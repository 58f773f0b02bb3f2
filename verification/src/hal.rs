pub mod video;
