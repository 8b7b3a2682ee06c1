pub mod selfexe;
