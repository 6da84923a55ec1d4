pub mod vertex3;
