pub mod materials;
