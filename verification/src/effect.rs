pub mod recv_effect;
pub mod returned_effect;
