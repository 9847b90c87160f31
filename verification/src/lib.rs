pub mod s3;
pub mod text;
pub mod user;
