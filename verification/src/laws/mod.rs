//! What the collectors promise as a whole: which event each reported number is made of, which
//! register counts it, and under which name and labels it is handed out.
pub mod calls;
pub mod counting;
pub mod created;
pub mod events;
pub mod families;
pub mod found;
pub mod gaps;
pub mod imc;
pub mod interconnect;
pub mod irp;
pub mod labels;
pub mod layout;
pub mod links;
pub mod lists;
pub mod machine;
pub mod parts;
pub mod pcu;
pub mod places;
pub mod power_events;
pub mod power_samples;
pub mod rapl;
pub mod recorded;
pub mod refused;
pub mod timing;
pub mod value;
