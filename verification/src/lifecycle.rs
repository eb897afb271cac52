use vstd::prelude::*;

use crate::codec::dec_rep;
use crate::codec::decimal_bytes;
use crate::codec::direction_path_for;
use crate::codec::direction_path_of;
use crate::codec::direction_token;
use crate::codec::direction_token_spec;
use crate::codec::export_path;
use crate::codec::export_path_spec;
use crate::codec::lemma_dec_rep_len;
use crate::codec::lemma_line_paths_distinct;
use crate::codec::unexport_path;
use crate::codec::unexport_path_spec;
use crate::codec::Direction;
use crate::error::GpioError;
use crate::plane::exported_after_write;
use crate::plane::lemma_same_can_write_trans;
use crate::plane::same_can_write;
use crate::plane::ControlPlane;

verus! {

/// The flat line number of the pin at `port x index`:
/// `(port - 1) * 32 + index`.  Ports are numbered from 1; `port == 0` is
/// not a legal input.
pub open spec fn abs_line(port: u8, index: u8) -> int {
    (port - 1) * 32 + index
}

/// The write that exports the line `line`: the decimal representation of
/// `line`, sent to the export entry point.
pub open spec fn export_write(line: int) -> (Seq<u8>, Seq<u8>) {
    (export_path_spec(), dec_rep(line as nat))
}

/// The write that binds the direction of the line `line` to `d`.
pub open spec fn direction_write(line: int, d: Direction) -> (Seq<u8>, Seq<u8>) {
    (direction_path_for(dec_rep(line as nat)), direction_token_spec(d))
}

/// The write that unexports the line `line`: the decimal representation
/// of `line`, sent to the unexport entry point.
pub open spec fn reset_write(line: int) -> (Seq<u8>, Seq<u8>) {
    (unexport_path_spec(), dec_rep(line as nat))
}

/// What a successful acquisition of the line `line` with direction `d`
/// appends to the plane's log: exactly the export write, then exactly the
/// direction write, and nothing else.
pub open spec fn acquire_writes(line: int, d: Direction) -> Seq<(Seq<u8>, Seq<u8>)> {
    seq![export_write(line), direction_write(line, d)]
}

/// Everything a best-effort reset of the line `line` guarantees, relating
/// the plane before (`pre`) to the plane after (`post`): exactly one
/// unexport write is issued; its outcome — one the plane's state admits —
/// is swallowed, so no error surfaces; and the exported lines change
/// exactly as that outcome dictates (the line's payload is removed when
/// the unexport succeeded, nothing changes when it was refused).
pub open spec fn reset_effect<P: ControlPlane>(pre: P, post: P, line: int) -> bool {
    &&& post.log() == pre.log().push(reset_write(line))
    &&& same_can_write(pre, post)
    &&& exists|out: Result<(), GpioError>|
        {
            &&& #[trigger] pre.can_write(
                pre.exported_lines(),
                unexport_path_spec(),
                dec_rep(line as nat),
                out,
            )
            &&& post.exported_lines() == exported_after_write(
                pre.exported_lines(),
                unexport_path_spec(),
                dec_rep(line as nat),
                out,
            )
        }
}

/// Everything an acquisition of `port x index` with direction `d`
/// guarantees, relating the plane's log and exported lines before
/// (`log0`, `ex0`) to the plane after (`post`) and the result `r`.
///
/// On success the log gains exactly the export write then the direction
/// write, both accepted by the plane, the line's payload is among the
/// exported lines, and the line number is returned.  On failure the
/// first refused write's error is returned unmodified: either the export
/// write was refused and the exported lines are unchanged, or the export
/// write was accepted and the direction write refused — then the line
/// remains exported and no unexport is issued.
///
/// `decider` is any plane state whose write-outcome relation is the
/// plane's own; the relation does not change across writes.
pub open spec fn init_effect<P: ControlPlane>(
    decider: P,
    log0: Seq<(Seq<u8>, Seq<u8>)>,
    ex0: Seq<Seq<u8>>,
    post: P,
    port: u8,
    index: u8,
    direction: Direction,
    r: Result<u32, GpioError>,
) -> bool {
    let line = abs_line(port, index);
    let ew = export_write(line);
    let dw = direction_write(line, direction);
    let ex1 = ex0.push(dec_rep(line as nat));
    match r {
        Ok(num) => {
            &&& num == line
            &&& decider.can_write(ex0, ew.0, ew.1, Ok::<(), GpioError>(()))
            &&& decider.can_write(ex1, dw.0, dw.1, Ok::<(), GpioError>(()))
            &&& post.log() == log0 + acquire_writes(line, direction)
            &&& post.exported_lines() == ex1
        },
        Err(e) => {
            ||| {
                &&& decider.can_write(ex0, ew.0, ew.1, Err::<(), GpioError>(e))
                &&& post.log() == log0.push(ew)
                &&& post.exported_lines() == ex0
            }
            ||| {
                &&& decider.can_write(ex0, ew.0, ew.1, Ok::<(), GpioError>(()))
                &&& decider.can_write(ex1, dw.0, dw.1, Err::<(), GpioError>(e))
                &&& post.log() == log0 + acquire_writes(line, direction)
                &&& post.exported_lines() == ex1
            }
        },
    }
}

/// The acquisition guarantee does not care which plane state decides the
/// outcomes, as long as the write-outcome relations agree.
pub(crate) proof fn lemma_init_effect_decider<P: ControlPlane>(
    a: P,
    b: P,
    log0: Seq<(Seq<u8>, Seq<u8>)>,
    ex0: Seq<Seq<u8>>,
    post: P,
    port: u8,
    index: u8,
    direction: Direction,
    r: Result<u32, GpioError>,
)
    requires
        same_can_write(a, b),
        init_effect(b, log0, ex0, post, port, index, direction, r),
    ensures
        init_effect(a, log0, ex0, post, port, index, direction, r),
{
}

/// Law: for any line, the release write goes to the unexport entry point
/// and carries exactly the payload that the export write of the same line
/// carried.  A handle releases with the decimal of its own line number,
/// so a successful acquisition is always matched by an unexport naming
/// the very line that was exported.
pub proof fn lemma_release_matches_export(line: int)
    ensures
        reset_write(line).0 == unexport_path_spec(),
        export_write(line).0 == export_path_spec(),
        reset_write(line).1 == export_write(line).1,
{
}

/// The lifecycle manager: export, direction binding, forced reset and
/// final release.  It is stateless; all effects go to the control plane
/// handed to each call.
pub struct Pin;

impl Pin {
    /// Maps the human-facing `port x index` pair to the flat line number
    /// consumed by the export and unexport entry points.
    ///
    /// The index is not bounds-checked against 32 here: an out-of-range
    /// address surfaces later, as an acquisition failure.
    pub fn convert_to_absolute(port: u8, index: u8) -> (r: u32)
        requires
            1 <= port,
        ensures
            r == abs_line(port, index),
    {
        let port_wide: u32 = port as u32;
        let index_wide: u32 = index as u32;
        (port_wide - 1) * 32 + index_wide
    }

    /// Best-effort unexport of the line `num`: one write to the unexport
    /// entry point, its outcome swallowed.  Never fails observably; when
    /// the plane accepted the write, the line is no longer exported.
    pub fn force_reset_abs<P: ControlPlane>(plane: &mut P, num: u32)
        ensures
            reset_effect(*old(plane), *final(plane), num as int),
    {
        let path = unexport_path();
        let payload = decimal_bytes(num);
        let swallowed = plane.write(&path, &payload);
        proof {
            assert(old(plane).can_write(
                old(plane).exported_lines(),
                unexport_path_spec(),
                dec_rep(num as nat),
                swallowed,
            ));
        }
    }

    /// Best-effort unexport of the pin at `port x index`; composes
    /// [`Pin::convert_to_absolute`] with [`Pin::force_reset_abs`].
    pub fn force_reset<P: ControlPlane>(plane: &mut P, port: u8, index: u8)
        requires
            1 <= port,
        ensures
            reset_effect(*old(plane), *final(plane), abs_line(port, index)),
    {
        let num = Self::convert_to_absolute(port, index);
        Self::force_reset_abs(plane, num);
    }

    /// Acquires the pin at `port x index`: writes the decimal of its line
    /// number to the export entry point, then the token of `direction` to
    /// the per-line direction entry point, and returns the line number.
    ///
    /// The first refused write ends the attempt and its error is surfaced
    /// unmodified; a failure of the direction write leaves the line
    /// exported (the partial state is not unwound — the caller's recourse
    /// is a forced reset on a later attempt).
    pub fn init<P: ControlPlane>(
        plane: &mut P,
        port: u8,
        index: u8,
        direction: Direction,
    ) -> (r: Result<u32, GpioError>)
        requires
            1 <= port,
        ensures
            same_can_write(*old(plane), *final(plane)),
            init_effect(
                *old(plane),
                old(plane).log(),
                old(plane).exported_lines(),
                *final(plane),
                port,
                index,
                direction,
                r,
            ),
    {
        let num = Self::convert_to_absolute(port, index);
        let payload = decimal_bytes(num);
        let export = export_path();
        let wrote_export = plane.write(&export, &payload);
        proof {
            assert(payload@ == dec_rep(abs_line(port, index) as nat));
        }
        match wrote_export {
            Ok(u) => {
                proof {
                    assert(wrote_export == Ok::<(), GpioError>(u) && u == ());
                }
            }
            Err(e) => {
                return Err(e);
            }
        }
        proof {
            assert(old(plane).can_write(
                old(plane).exported_lines(),
                export_write(abs_line(port, index)).0,
                export_write(abs_line(port, index)).1,
                Ok::<(), GpioError>(()),
            ));
        }
        let ghost mid = *plane;
        let dir_path = direction_path_of(&payload);
        let token = direction_token(direction);
        let result = plane.write(&dir_path, &token);
        proof {
            lemma_dec_rep_len(num as nat);
            lemma_line_paths_distinct(dec_rep(num as nat));
            lemma_same_can_write_trans(*old(plane), mid, *plane);
            assert(plane.log() =~= old(plane).log() + acquire_writes(
                abs_line(port, index),
                direction,
            ));
            assert(mid.exported_lines() == old(plane).exported_lines().push(
                dec_rep(abs_line(port, index) as nat),
            ));
            assert(plane.exported_lines() == mid.exported_lines());
        }
        match result {
            Ok(u) => {
                proof {
                    assert(result == Ok::<(), GpioError>(u));
                    assert(u == ());
                    assert(old(plane).can_write(
                        old(plane).exported_lines().push(dec_rep(abs_line(port, index) as nat)),
                        direction_write(abs_line(port, index), direction).0,
                        direction_write(abs_line(port, index), direction).1,
                        Ok::<(), GpioError>(()),
                    ));
                }
                Ok(num)
            }
            Err(e) => {
                proof {
                    assert(old(plane).can_write(
                        old(plane).exported_lines().push(dec_rep(abs_line(port, index) as nat)),
                        direction_write(abs_line(port, index), direction).0,
                        direction_write(abs_line(port, index), direction).1,
                        Err::<(), GpioError>(e),
                    ));
                }
                Err(e)
            }
        }
    }
}

} // verus!
