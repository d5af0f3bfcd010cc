//! The `bpf-execute` shell command: parsing the arguments into an execution
//! request.
//!
//! The command has the shape `bpf-execute <rBPF | FemtoContainer> <slot>
//! <layout>`.  A missing argument, an unparsable slot or an unknown target
//! asks for the usage line; an unknown layout name falls back to the default
//! layout and the request is still sent.

use vstd::prelude::*;
use crate::config::{BinaryFileLayout, TargetVM};
use crate::requests::VMExecutionRequest;

verus! {

/// Whether every character of the sequence is a decimal digit (and there is
/// at least one).
pub open spec fn spec_all_digits(s: Seq<char>) -> bool {
    s.len() > 0 && (forall|i: int| 0 <= i < s.len() ==> '0' <= #[trigger] s[i] <= '9')
}

/// The number the digit sequence denotes, most significant digit first.
pub open spec fn spec_digits_value(s: Seq<char>) -> int
    decreases s.len(),
{
    if s.len() == 0 {
        0
    } else {
        spec_digits_value(s.drop_last()) * 10 + (s.last() as int - '0' as int)
    }
}

/// The digits of a slot argument: the whole of it, or what follows one
/// leading plus sign, which the standard parser accepts.
pub open spec fn spec_digits_of(s: Seq<char>) -> Seq<char> {
    if s.len() >= 1 && s[0] == '+' {
        s.subrange(1, s.len() as int)
    } else {
        s
    }
}

/// The slot number a command argument denotes: defined exactly where the
/// standard `u8` parser succeeds — an optional leading plus sign, then
/// digits whose value fits one byte.
pub open spec fn spec_parse_u8(s: Seq<char>) -> Option<u8> {
    if spec_all_digits(spec_digits_of(s)) && spec_digits_value(spec_digits_of(s)) < 256 {
        Some(spec_digits_value(spec_digits_of(s)) as u8)
    } else {
        None
    }
}

/// A digit string's value is never negative.
proof fn lemma_digits_value_nonneg(s: Seq<char>)
    requires
        forall|i: int| 0 <= i < s.len() ==> '0' <= #[trigger] s[i] <= '9',
    ensures
        spec_digits_value(s) >= 0,
    decreases s.len(),
{
    if s.len() > 0 {
        lemma_digits_value_nonneg(s.drop_last());
    }
}

/// A digit string's value only grows as digits are appended.
proof fn lemma_digits_value_prefix(s: Seq<char>, i: int)
    requires
        forall|k: int| 0 <= k < s.len() ==> '0' <= #[trigger] s[k] <= '9',
        0 <= i < s.len(),
    ensures
        spec_digits_value(s.subrange(0, i)) <= spec_digits_value(s.subrange(0, i + 1)),
{
    let prefix = s.subrange(0, i + 1);
    assert(prefix.drop_last() =~= s.subrange(0, i));
    lemma_digits_value_nonneg(s.subrange(0, i));
    assert(prefix.last() as int - '0' as int >= 0);
    assert(spec_digits_value(prefix) == spec_digits_value(s.subrange(0, i)) * 10 + (prefix.last()
        as int - '0' as int));
    assert(spec_digits_value(s.subrange(0, i)) * 10 >= spec_digits_value(s.subrange(0, i)))
        by (nonlinear_arith)
        requires
            spec_digits_value(s.subrange(0, i)) >= 0,
    ;
}

/// A digit string whose prefix already exceeds a byte exceeds it as a whole.
proof fn lemma_digits_value_overflow(s: Seq<char>, i: int)
    requires
        forall|k: int| 0 <= k < s.len() ==> '0' <= #[trigger] s[k] <= '9',
        0 <= i <= s.len(),
        spec_digits_value(s.subrange(0, i)) > 255,
    ensures
        spec_digits_value(s) > 255,
    decreases s.len() - i,
{
    if i == s.len() {
        assert(s.subrange(0, i) =~= s);
    } else {
        lemma_digits_value_prefix(s, i);
        lemma_digits_value_overflow(s, i + 1);
    }
}

/// Parses a decimal slot number, accepting exactly what the standard byte
/// parser accepts: an optional leading plus sign, then digits whose value
/// fits one byte.
pub fn parse_u8(s: &str) -> (r: Option<u8>)
    ensures
        r == spec_parse_u8(s@),
{
    let len = s.unicode_len();
    if len == 0 {
        return None;
    }
    let first = s.get_char(0);
    let start: usize = if first == '+' {
        1
    } else {
        0
    };
    let ghost eff = spec_digits_of(s@);
    proof {
        assert(eff =~= s@.subrange(start as int, len as int));
    }
    if len == start {
        assert(!spec_all_digits(eff));
        return None;
    }
    let mut value: u32 = 0;
    let mut i: usize = start;
    while i < len
        invariant
            len == s@.len(),
            start <= 1,
            start < len,
            start <= i <= len,
            value <= 255,
            eff == spec_digits_of(s@),
            eff =~= s@.subrange(start as int, len as int),
            forall|k: int| 0 <= k < i - start ==> '0' <= #[trigger] eff[k] <= '9',
            value == spec_digits_value(eff.subrange(0, i - start)),
        decreases len - i,
    {
        let c = s.get_char(i);
        assert(c == eff[i - start]);
        if c < '0' || c > '9' {
            assert(!spec_all_digits(eff));
            return None;
        }
        let d = (c as u32) - 48;
        assert(d == eff[i - start] as int - '0' as int);
        let next = value * 10 + d;
        proof {
            assert(eff.subrange(0, i - start + 1).drop_last() =~= eff.subrange(0, i - start));
        }
        assert(next == spec_digits_value(eff.subrange(0, i - start + 1)));
        if next > 255 {
            proof {
                if spec_all_digits(eff) {
                    lemma_digits_value_overflow(eff, i - start + 1);
                    assert(spec_digits_value(eff) > 255);
                }
            }
            return None;
        }
        value = next;
        i += 1;
    }
    proof {
        assert(eff.subrange(0, (len - start) as int) =~= eff);
        assert(spec_all_digits(eff));
    }
    Some(value as u8)
}

/// The layout a command argument names, if any.
pub open spec fn spec_layout_from_name(s: Seq<char>) -> Option<BinaryFileLayout> {
    if s == "OnlyTextSection"@ {
        Some(BinaryFileLayout::OnlyTextSection)
    } else if s == "FemtoContainersHeader"@ {
        Some(BinaryFileLayout::FemtoContainersHeader)
    } else if s == "ExtendedHeader"@ {
        Some(BinaryFileLayout::ExtendedHeader)
    } else if s == "RawObjectFile"@ {
        Some(BinaryFileLayout::RawObjectFile)
    } else if s == "FunctionRelocationMetadata"@ {
        Some(BinaryFileLayout::FunctionRelocationMetadata)
    } else {
        None
    }
}

/// Looks a layout up by its name.
pub fn layout_from_name(s: &String) -> (r: Option<BinaryFileLayout>)
    ensures
        r == spec_layout_from_name(s@),
{
    if s.eq(&String::from_str("OnlyTextSection")) {
        Some(BinaryFileLayout::OnlyTextSection)
    } else if s.eq(&String::from_str("FemtoContainersHeader")) {
        Some(BinaryFileLayout::FemtoContainersHeader)
    } else if s.eq(&String::from_str("ExtendedHeader")) {
        Some(BinaryFileLayout::ExtendedHeader)
    } else if s.eq(&String::from_str("RawObjectFile")) {
        Some(BinaryFileLayout::RawObjectFile)
    } else if s.eq(&String::from_str("FunctionRelocationMetadata")) {
        Some(BinaryFileLayout::FunctionRelocationMetadata)
    } else {
        None
    }
}

/// What the shell does with one `bpf-execute` command line.
pub enum CommandAction {
    /// The arguments do not form a command: print the usage line.
    Usage,
    /// Send this request; `layout_fallback` notes that the layout argument
    /// was not recognized and the default layout was taken instead.
    Send { request: VMExecutionRequest, layout_fallback: bool },
}

/// Parses one `bpf-execute` command line: the command name, the target VM,
/// the slot, and the layout.  A missing argument, an unparsable slot or an
/// unknown target asks for usage; an unknown layout name falls back to
/// `FunctionRelocationMetadata` and still sends.  The request allows helpers
/// 1, 2 and 3, the command's fixed set.
pub fn handle_command(args: &Vec<String>) -> (r: CommandAction)
    ensures
        args@.len() < 4 ==> r is Usage,
        args@.len() >= 4 && spec_parse_u8(args@[2]@) is None ==> r is Usage,
        args@.len() >= 4 && args@[1]@ != "rBPF"@ && args@[1]@ != "FemtoContainer"@ ==> r is Usage,
        args@.len() >= 4 && (args@[1]@ == "rBPF"@ || args@[1]@ == "FemtoContainer"@) ==> (
        spec_parse_u8(args@[2]@) matches Some(slot) ==> r matches CommandAction::Send {
            request,
            layout_fallback,
        } && {
            &&& request.vm_target == (if args@[1]@ == "rBPF"@ {
                TargetVM::Rbpf
            } else {
                TargetVM::FemtoContainer
            })
            &&& request.suit_slot == slot as usize
            &&& request.helper_set == 0
            &&& request.helper_indices == 0
            &&& request.allowed_helpers@ == seq![1u8, 2u8, 3u8]
            &&& match spec_layout_from_name(args@[3]@) {
                Some(l) => request.binary_layout == l && !layout_fallback,
                Option::None => request.binary_layout
                    == BinaryFileLayout::FunctionRelocationMetadata && layout_fallback,
            }
        }),
{
    if args.len() < 4 {
        return CommandAction::Usage;
    }
    let Some(slot) = parse_u8(args[2].as_str()) else {
        return CommandAction::Usage;
    };
    let vm_target: TargetVM = if args[1].eq(&String::from_str("rBPF")) {
        TargetVM::Rbpf
    } else if args[1].eq(&String::from_str("FemtoContainer")) {
        TargetVM::FemtoContainer
    } else {
        return CommandAction::Usage;
    };
    let (binary_layout, layout_fallback) = match layout_from_name(&args[3]) {
        Some(l) => (l, false),
        None => (BinaryFileLayout::FunctionRelocationMetadata, true),
    };
    let mut allowed: Vec<u8> = Vec::new();
    allowed.push(1);
    allowed.push(2);
    allowed.push(3);
    assert(allowed@ =~= seq![1u8, 2u8, 3u8]);
    CommandAction::Send {
        request: VMExecutionRequest {
            vm_target,
            binary_layout,
            suit_slot: slot as usize,
            helper_set: 0,
            helper_indices: 0,
            allowed_helpers: allowed,
        },
        layout_fallback,
    }
}

} // verus!
