//! Devices beyond the VGA core: the PCI configuration-space scan and
//! the Bochs VBE DISPI adapter with its linear frame buffer.

pub mod bochs;
pub mod pci;

pub use bochs::BochsDevice;
pub use bochs::Resolution;
pub use pci::PciConfigSpace;
pub use pci::PciDevice;
