//! A minimal runtime and hardware-access layer for a fixed, memory-mapped
//! handheld target.
//!
//! The crate provides:
//! - bit-field primitives for 16-bit hardware register values ([`bits`]),
//! - capability-tagged volatile-address handles and strided register
//!   families ([`mmio`]),
//! - the fixed hardware address map of the target ([`address_map`]),
//! - typed register values: colors, display control, key input and object
//!   attributes ([`video`], [`keys`], [`obj`]),
//! - the word-copy and word-clear procedures that the boot trampoline runs
//!   before handing control to the program entry point ([`boot`]), and
//!   the decision by which the interrupt entry stub acknowledges its
//!   sources ([`irq`]).
//!
//! The architecture-specific cold-entry assembly itself cannot be expressed
//! here; it belongs to the surrounding unverified binary, which drives the
//! hardware through the addresses and values this crate computes.

pub mod address_map;
pub mod bits;
pub mod boot;
pub mod irq;
pub mod keys;
pub mod mmio;
pub mod obj;
pub mod video;

pub use keys::KeyInput;
pub use obj::ObjAttr;
pub use obj::ObjAttr0;
pub use obj::ObjAttr1;
pub use obj::ObjAttr2;
pub use video::Color;
pub use video::DisplayControl;

pub use mmio::Safe;
pub use mmio::VolAddress;
pub use mmio::VolBlock;
pub use mmio::VolSeries;

pub use bits::u16_get_bit;
pub use bits::u16_get_value;
pub use bits::u16_with_bit;
pub use bits::u16_with_value;
