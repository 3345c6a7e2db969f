//! Format-engine judgments for the custom root filesystem. The formatter is
//! print-on-success: a zero exit code alone proves nothing, the diagnostic
//! stream must carry a success marker, and the generated volume identifier is
//! recovered from the same stream.

use vstd::prelude::*;
use vstd::string::*;
use crate::errors::InstallError;
use crate::text::{
    all_digits, contains_seq, contains_sub, digits_val, lines_spec, parse_u64, split_lines,
    split_ws, split_ws_spec, trim_spec, trim_str,
};

verus! {

/// The identifier the custom formatter assigns to the new volume.
#[derive(Clone, Debug, PartialEq, Eq)]
pub struct VolumeIdentity {
    pub text: String,
}

/// The formatter's diagnostic stream reports success.
pub open spec fn has_success_marker(stderr: Seq<char>) -> bool {
    contains_seq(stderr, "created filesystem"@)
}

/// A diagnostic line that carries the volume identifier.
pub open spec fn is_identity_line(l: Seq<char>) -> bool {
    contains_seq(l, "uuid"@)
}

/// `i` indexes the first identifier-carrying line of `ls`.
pub open spec fn first_identity_line(ls: Seq<Seq<char>>, i: int) -> bool {
    &&& 0 <= i < ls.len()
    &&& is_identity_line(ls[i])
    &&& forall|j: int| 0 <= j < i ==> !is_identity_line(ls[j])
}

/// Check whether the diagnostic stream carries the success marker.
pub fn stream_reports_success(stderr: &str) -> (b: bool)
    ensures
        b == has_success_marker(stderr@),
{
    contains_sub(stderr, "created filesystem")
}

/// Recover the volume identifier from the formatter's diagnostic stream: the
/// last whitespace-delimited token of the first line that mentions the
/// identifier keyword. Fails cleanly when no such line or token exists.
pub fn extract_volume_identity(stderr: &str) -> (r: Result<VolumeIdentity, InstallError>)
    ensures
        ({
            let ls = lines_spec(stderr@);
            match r {
                Ok(v) => exists|i: int|
                    first_identity_line(ls, i) && split_ws_spec(ls[i]).len() > 0 && v.text@
                        == split_ws_spec(ls[i]).last(),
                Err(e) => e is Parse && ((forall|i: int|
                    0 <= i < ls.len() ==> !is_identity_line(ls[i])) || (exists|i: int|
                    first_identity_line(ls, i) && split_ws_spec(ls[i]).len() == 0)),
            }
        }),
{
    let ghost ls = lines_spec(stderr@);
    let lines = split_lines(stderr);
    let mut i: usize = 0;
    while i < lines.len()
        invariant
            ls == lines_spec(stderr@),
            lines.deep_view() == ls,
            i <= lines.len(),
            forall|j: int| 0 <= j < i ==> !is_identity_line(ls[j]),
        decreases lines.len() - i,
    {
        if contains_sub(lines[i].as_str(), "uuid") {
            proof {
                assert(lines@[i as int]@ == ls[i as int]);
                assert(first_identity_line(ls, i as int));
            }
            let tokens = split_ws(lines[i].as_str());
            if tokens.len() == 0 {
                return Err(
                    InstallError::Parse {
                        what: String::from_str("volume identity"),
                        detail: String::from_str("identifier line holds no token"),
                    },
                );
            }
            let tok = tokens[tokens.len() - 1].clone();
            proof {
                assert(tokens.deep_view()[tokens@.len() - 1] == tokens@[tokens@.len() - 1]@);
                assert(tok@ == split_ws_spec(ls[i as int]).last());
            }
            return Ok(VolumeIdentity { text: tok });
        }
        proof {
            assert(lines@[i as int]@ == ls[i as int]);
        }
        i += 1;
    }
    Err(
        InstallError::Parse {
            what: String::from_str("volume identity"),
            detail: String::from_str("no identifier line in formatter output"),
        },
    )
}

/// Judge one run of the custom formatter, per the print-on-success protocol:
/// a non-zero exit fails; a zero exit without the success marker in the
/// diagnostic stream fails; otherwise the volume identifier is extracted
/// from that stream, and failure to extract it fails the stage.
pub fn judge_custom_format(tool: &str, exit_ok: bool, exit_detail: &str, stderr: &str) -> (r:
    Result<VolumeIdentity, InstallError>)
    ensures
        ({
            let ls = lines_spec(stderr@);
            match r {
                Ok(v) => exit_ok && has_success_marker(stderr@) && exists|i: int|
                    first_identity_line(ls, i) && split_ws_spec(ls[i]).len() > 0 && v.text@
                        == split_ws_spec(ls[i]).last(),
                Err(e) => {
                    ||| (!exit_ok && (e matches InstallError::ToolFailed { tool: t, detail: d }
                        && t@ == tool@ && d@ == exit_detail@))
                    ||| (exit_ok && !has_success_marker(stderr@) && (e matches InstallError::Verify {
                        what: w,
                        detail: d,
                    } && w@ == "formatter success marker"@ && d@ == stderr@))
                    ||| (exit_ok && has_success_marker(stderr@) && e is Parse && ((forall|i: int|
                        0 <= i < ls.len() ==> !is_identity_line(ls[i])) || (exists|i: int|
                        first_identity_line(ls, i) && split_ws_spec(ls[i]).len() == 0)))
                },
            }
        }),
{
    if !exit_ok {
        return Err(
            InstallError::ToolFailed { tool: tool.to_owned(), detail: exit_detail.to_owned() },
        );
    }
    if !stream_reports_success(stderr) {
        return Err(
            InstallError::Verify {
                what: String::from_str("formatter success marker"),
                detail: stderr.to_owned(),
            },
        );
    }
    extract_volume_identity(stderr)
}

/// Parse the byte count a block-size query printed on its standard output.
pub fn parse_block_size(stdout: &str) -> (r: Result<u64, InstallError>)
    ensures
        ({
            let t = trim_spec(stdout@);
            match r {
                Ok(v) => t.len() > 0 && all_digits(t) && v == digits_val(t),
                Err(e) => e is Parse && (t.len() == 0 || !all_digits(t) || digits_val(t)
                    > u64::MAX),
            }
        }),
{
    let t = trim_str(stdout);
    match parse_u64(t.as_str()) {
        Some(v) => Ok(v),
        None => Err(
            InstallError::Parse {
                what: String::from_str("block device size"),
                detail: t,
            },
        ),
    }
}

} // verus!
