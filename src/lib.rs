pub mod laws;
pub mod midi_con;
pub mod state;
