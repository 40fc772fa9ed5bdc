pub mod embed;
