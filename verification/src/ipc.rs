pub mod dto;
