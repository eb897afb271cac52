//! A minimal, safe abstraction over a Linux-style user-space GPIO control
//! plane: the hierarchy of special files through which lines are
//! exported, bound to a direction, read, driven and unexported.
//!
//! Pins are addressed as `port x index` pairs (ports numbered from 1,
//! each port holding up to 32 lines) and mapped to the flat line number
//! the control plane consumes.  Two handle types, [`InPin`] and
//! [`OutPin`], each own one exported line: acquisition writes the line's
//! decimal number to the export entry point and the direction token to
//! the per-line direction entry point, reads and writes go through the
//! per-line value entry point, and release unexports the line on a
//! best-effort basis.
//!
//! Every effect goes through the [`ControlPlane`] interface, so the
//! acquisition protocol, the read/write contract and the release path
//! are stated over an explicit log of write attempts, the set of
//! exported lines, and the outcomes the plane's state admits for each
//! write.  [`FakePlane`] is a
//! simulated control plane for exercising the protocol without hardware;
//! a filesystem-backed plane lives with the binding that runs on the
//! target.

pub mod codec;
pub mod error;
pub mod fake;
pub mod input;
pub mod lifecycle;
pub mod output;
pub mod plane;

pub use codec::Direction;
pub use error::GpioError;
pub use fake::FakePlane;
pub use input::InPin;
pub use lifecycle::Pin;
pub use output::OutPin;
pub use plane::ControlPlane;
pub use plane::PlaneWrite;
