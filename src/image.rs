pub mod image_type;
