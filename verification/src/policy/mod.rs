pub mod decision;
pub mod feature_gate;
pub mod roots;
pub mod sensitive;
pub mod webroot;
