pub mod power_control;
