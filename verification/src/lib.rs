pub mod field;
pub mod highlight;
pub mod numeral;
pub mod opcode;
pub mod rumdis;
pub mod rumload;
pub mod tint;
