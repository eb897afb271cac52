use vstd::prelude::*;

use crate::codec::export_path_spec;
use crate::codec::unexport_path_spec;
use crate::error::GpioError;

verus! {

/// One write issued to the control plane: the name of the entry point and
/// the payload handed to it.
#[derive(Debug)]
pub struct PlaneWrite {
    /// The entry point's name, relative to the control-plane root.
    pub path: Vec<u8>,
    /// The bytes written to it.
    pub payload: Vec<u8>,
}

impl View for PlaneWrite {
    type V = (Seq<u8>, Seq<u8>);

    open spec fn view(&self) -> (Seq<u8>, Seq<u8>) {
        (self.path@, self.payload@)
    }
}

/// What a write does to the exported lines: a successful write to the
/// export entry point appends its payload, a successful write to the
/// unexport entry point removes the payload's first occurrence, and
/// every other write — to a per-line entry point, or refused — leaves
/// the exported lines as they were.
pub open spec fn exported_after_write(
    exported: Seq<Seq<u8>>,
    path: Seq<u8>,
    payload: Seq<u8>,
    out: Result<(), GpioError>,
) -> Seq<Seq<u8>> {
    if out is Ok && path == export_path_spec() {
        exported.push(payload)
    } else if out is Ok && path == unexport_path_spec() {
        exported.remove_value(payload)
    } else {
        exported
    }
}

/// The write-outcome relation of `post` is the one of `pre`: writing and
/// reading change which lines are exported, never how the plane decides
/// a write.  The `write` and `read_value` contracts state this clause
/// inline (a trait contract cannot name a function defined over the
/// trait); this name stands for the same clause everywhere else.
pub open spec fn same_can_write<P: ControlPlane>(pre: P, post: P) -> bool {
    forall|exported: Seq<Seq<u8>>, path: Seq<u8>, payload: Seq<u8>, out: Result<(), GpioError>|
        post.can_write(exported, path, payload, out) == pre.can_write(exported, path, payload, out)
}

/// The write-outcome relation agrees along a chain of plane states.
pub(crate) proof fn lemma_same_can_write_trans<P: ControlPlane>(a: P, b: P, c: P)
    requires
        same_can_write(a, b),
        same_can_write(b, c),
    ensures
        same_can_write(a, c),
{
}

/// The control plane: the process-global hierarchy of special files
/// through which lines are exported, bound to a direction, read, driven
/// and unexported.
///
/// Every operation of this crate goes through this interface, so its
/// observable effect can be stated over the plane's write log and its
/// exported lines.  A write is logged whether or not it succeeds: the
/// log is the sequence of write attempts, in program order.
pub trait ControlPlane: Sized {
    /// Every write issued to this plane so far, oldest first, each as the
    /// pair of the entry point's name and the payload.  Left unspecified
    /// here; each plane says what its log is.
    open spec fn log(&self) -> Seq<(Seq<u8>, Seq<u8>)> {
        arbitrary()
    }

    /// The decimal payloads of the currently exported lines, oldest
    /// first.  Left unspecified here; each plane says what its exported
    /// lines are.
    open spec fn exported_lines(&self) -> Seq<Seq<u8>> {
        arbitrary()
    }

    /// Which outcomes a write of `payload` to the entry point named
    /// `path` may have while the lines in `exported` are the exported
    /// ones.  The exported lines stand apart from `self` so that the
    /// relation is stable across writes; `self` contributes everything
    /// else that bears on an outcome.  A plane whose outcomes are not
    /// determined — the real hardware shares its control plane with
    /// other processes — may admit several outcomes for one write.
    /// Left unspecified here; each plane says what its writes can yield.
    open spec fn can_write(
        &self,
        exported: Seq<Seq<u8>>,
        path: Seq<u8>,
        payload: Seq<u8>,
        out: Result<(), GpioError>,
    ) -> bool {
        arbitrary()
    }

    /// Which outcomes a read of `path` may have while the plane is in its
    /// current state.  A plane whose reads are not determined by its
    /// state may admit several outcomes for one path.  Left unspecified
    /// here; each plane says what its reads can yield.
    open spec fn can_read(&self, path: Seq<u8>, out: Result<(usize, u8), GpioError>) -> bool {
        arbitrary()
    }

    /// Writes `payload` to the entry point named `path`, opening and
    /// closing it around the one write.  The attempt is appended to the
    /// log; the outcome is one the plane's state admits, and the
    /// exported lines change exactly as the outcome dictates.
    fn write(&mut self, path: &Vec<u8>, payload: &Vec<u8>) -> (r: Result<(), GpioError>)
        ensures
            final(self).log() == old(self).log().push((path@, payload@)),
            old(self).can_write(old(self).exported_lines(), path@, payload@, r),
            final(self).exported_lines() == exported_after_write(
                old(self).exported_lines(),
                path@,
                payload@,
                r,
            ),
            forall|ex: Seq<Seq<u8>>, p: Seq<u8>, pl: Seq<u8>, out: Result<(), GpioError>|
                final(self).can_write(ex, p, pl, out) == old(self).can_write(ex, p, pl, out),
    ;

    /// Reads at most one byte from the entry point named `path`, opening
    /// and closing it around the one read.  On success the first element
    /// is the number of bytes read and the second the byte (0 when
    /// nothing was read).  Reading issues no write and exports or
    /// unexports nothing.
    fn read_value(&mut self, path: &Vec<u8>) -> (r: Result<(usize, u8), GpioError>)
        ensures
            final(self).log() == old(self).log(),
            final(self).exported_lines() == old(self).exported_lines(),
            forall|ex: Seq<Seq<u8>>, p: Seq<u8>, pl: Seq<u8>, out: Result<(), GpioError>|
                final(self).can_write(ex, p, pl, out) == old(self).can_write(ex, p, pl, out),
            old(self).can_read(path@, r),
            r matches Ok(p) ==> p.0 <= 1,
    ;
}

} // verus!
