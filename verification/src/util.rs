pub mod decimal;
pub mod html;
