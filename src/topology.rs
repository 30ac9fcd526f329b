//! The five display arrangements and their textual names.
use vstd::prelude::*;

verus! {

/// A display arrangement mode.
#[derive(Debug, Clone, Copy, PartialEq, Eq, Structural)]
pub enum Topology {
    Internal,
    External,
    Clone,
    Extend,
    Supplied,
}

/// A text that names none of the five topologies.
#[derive(Debug, PartialEq, Eq)]
pub struct UnrecognizedTopology {
    pub text: String,
}

/// The display-configuration flag that asks for a configuration to be applied.
pub const SDC_APPLY: u32 = 0x80;

/// The display-configuration flag of the internal-only topology.
pub const SDC_TOPOLOGY_INTERNAL: u32 = 0x1;

/// The display-configuration flag of the mirrored topology.
pub const SDC_TOPOLOGY_CLONE: u32 = 0x2;

/// The display-configuration flag of the extended topology.
pub const SDC_TOPOLOGY_EXTEND: u32 = 0x4;

/// The display-configuration flag of the external-only topology.
pub const SDC_TOPOLOGY_EXTERNAL: u32 = 0x8;

/// The display-configuration flag of the topology stored in the platform's database.
pub const SDC_TOPOLOGY_SUPPLIED: u32 = 0x10;

/// A failed display switch: the platform call returned a non-zero status.
#[derive(Debug, Clone, Copy, PartialEq, Eq, Structural)]
pub struct SwitchError {
    pub code: i32,
}

/// The native display-configuration flag of a topology.
pub open spec fn native_flag_spec(t: Topology) -> u32 {
    match t {
        Topology::Internal => SDC_TOPOLOGY_INTERNAL,
        Topology::External => SDC_TOPOLOGY_EXTERNAL,
        Topology::Clone => SDC_TOPOLOGY_CLONE,
        Topology::Extend => SDC_TOPOLOGY_EXTEND,
        Topology::Supplied => SDC_TOPOLOGY_SUPPLIED,
    }
}

/// The flags handed to the platform to switch to `t`: apply, plus the topology's flag.
pub open spec fn switch_flags_spec(t: Topology) -> u32 {
    SDC_APPLY | native_flag_spec(t)
}

/// What a platform status means: zero is success, anything else a failure carrying it.
pub open spec fn switch_outcome_spec(code: i32) -> Result<(), SwitchError> {
    if code == 0 {
        Ok(())
    } else {
        Err(SwitchError { code })
    }
}

/// The ASCII lowercase form of a character; other characters stay as they are.
pub open spec fn ascii_lower(c: char) -> char {
    if 'A' <= c && c <= 'Z' {
        ((c as u8) + 32u8) as char
    } else {
        c
    }
}

/// The ASCII lowercase form of a text.
pub open spec fn ascii_lower_seq(s: Seq<char>) -> Seq<char> {
    s.map_values(|c: char| ascii_lower(c))
}

/// The canonical (lowercase) name of a topology.
pub open spec fn name_of(t: Topology) -> Seq<char> {
    match t {
        Topology::Internal => seq!['i', 'n', 't', 'e', 'r', 'n', 'a', 'l'],
        Topology::External => seq!['e', 'x', 't', 'e', 'r', 'n', 'a', 'l'],
        Topology::Clone => seq!['c', 'l', 'o', 'n', 'e'],
        Topology::Extend => seq!['e', 'x', 't', 'e', 'n', 'd'],
        Topology::Supplied => seq!['s', 'u', 'p', 'p', 'l', 'i', 'e', 'd'],
    }
}

/// Whether `s` names `t`, ignoring ASCII letter case.
pub open spec fn names(s: Seq<char>, t: Topology) -> bool {
    ascii_lower_seq(s) == name_of(t)
}

/// What decoding a text gives: the topology it names, ignoring ASCII case, if any.
pub open spec fn decode_spec(s: Seq<char>) -> Option<Topology> {
    if names(s, Topology::Internal) {
        Some(Topology::Internal)
    } else if names(s, Topology::External) {
        Some(Topology::External)
    } else if names(s, Topology::Clone) {
        Some(Topology::Clone)
    } else if names(s, Topology::Extend) {
        Some(Topology::Extend)
    } else if names(s, Topology::Supplied) {
        Some(Topology::Supplied)
    } else {
        None
    }
}

fn lower_char(c: char) -> (r: char)
    ensures
        r == ascii_lower(c),
{
    if 'A' <= c && c <= 'Z' {
        ((c as u8) + 32u8) as char
    } else {
        c
    }
}

/// Whether `s` equals `name` once its ASCII letters are lowercased.
fn equals_ignoring_case(s: &str, name: &str) -> (r: bool)
    ensures
        r == (ascii_lower_seq(s@) == name@),
{
    let n = s.unicode_len();
    if n != name.unicode_len() {
        proof {
            assert(ascii_lower_seq(s@).len() != name@.len());
        }
        return false;
    }
    let mut i: usize = 0;
    while i < n
        invariant
            n == s@.len(),
            n == name@.len(),
            i <= n,
            forall|j: int| 0 <= j < i ==> ascii_lower(#[trigger] s@[j]) == name@[j],
        decreases n - i,
    {
        if lower_char(s.get_char(i)) != name.get_char(i) {
            proof {
                assert(ascii_lower_seq(s@)[i as int] != name@[i as int]);
            }
            return false;
        }
        i = i + 1;
    }
    proof {
        assert(ascii_lower_seq(s@) =~= name@);
    }
    true
}

impl Topology {
    /// The canonical name of this topology, as a string literal.
    pub fn name(&self) -> (r: &'static str)
        ensures
            r@ == name_of(*self),
    {
        match self {
            Topology::Internal => {
                proof { reveal_strlit("internal"); }
                "internal"
            },
            Topology::External => {
                proof { reveal_strlit("external"); }
                "external"
            },
            Topology::Clone => {
                proof { reveal_strlit("clone"); }
                "clone"
            },
            Topology::Extend => {
                proof { reveal_strlit("extend"); }
                "extend"
            },
            Topology::Supplied => {
                proof { reveal_strlit("supplied"); }
                "supplied"
            },
        }
    }

    /// The native display-configuration flag of this topology.
    pub fn native_flag(&self) -> (r: u32)
        ensures
            r == native_flag_spec(*self),
    {
        match self {
            Topology::Internal => SDC_TOPOLOGY_INTERNAL,
            Topology::External => SDC_TOPOLOGY_EXTERNAL,
            Topology::Clone => SDC_TOPOLOGY_CLONE,
            Topology::Extend => SDC_TOPOLOGY_EXTEND,
            Topology::Supplied => SDC_TOPOLOGY_SUPPLIED,
        }
    }

    /// The flags to hand the platform's display-configuration call to switch to this topology.
    pub fn switch_flags(&self) -> (r: u32)
        ensures
            r == switch_flags_spec(*self),
    {
        SDC_APPLY | self.native_flag()
    }

    /// The canonical (lowercase) name of this topology.
    pub fn encode(&self) -> (r: String)
        ensures
            r@ == name_of(*self),
    {
        self.name().to_string()
    }

    /// The topology that `text` names, ignoring ASCII letter case; any other text is refused.
    pub fn decode(text: &str) -> (r: Result<Topology, UnrecognizedTopology>)
        ensures
            match decode_spec(text@) {
                Some(t) => r == Ok::<Topology, UnrecognizedTopology>(t),
                None => r is Err && r->Err_0.text@ == text@,
            },
    {
        let all = [
            Topology::Internal,
            Topology::External,
            Topology::Clone,
            Topology::Extend,
            Topology::Supplied,
        ];
        let mut k: usize = 0;
        while k < 5
            invariant
                k <= 5,
                all@ == seq![
                    Topology::Internal,
                    Topology::External,
                    Topology::Clone,
                    Topology::Extend,
                    Topology::Supplied,
                ],
                forall|j: int| 0 <= j < k ==> !names(text@, #[trigger] all@[j]),
            decreases 5 - k,
        {
            let t = all[k];
            if equals_ignoring_case(text, t.name()) {
                return Ok(t);
            }
            k = k + 1;
        }
        proof {
            assert(!names(text@, all@[0]));
            assert(!names(text@, all@[1]));
            assert(!names(text@, all@[2]));
            assert(!names(text@, all@[3]));
            assert(!names(text@, all@[4]));
        }
        Err(UnrecognizedTopology { text: text.to_string() })
    }
}

/// Interprets the status that the platform's display-configuration call returned.
pub fn switch_outcome(code: i32) -> (r: Result<(), SwitchError>)
    ensures
        r == switch_outcome_spec(code),
{
    if code == 0 {
        Ok(())
    } else {
        Err(SwitchError { code })
    }
}

/// No two topologies share a name or a native flag.
pub proof fn names_and_flags_are_distinct(a: Topology, b: Topology)
    requires
        a != b,
    ensures
        name_of(a) != name_of(b),
        native_flag_spec(a) != native_flag_spec(b),
        switch_flags_spec(a) != switch_flags_spec(b),
{
    let (na, nb) = (name_of(a), name_of(b));
    assert(na.len() != nb.len() || na[0] != nb[0] || na[3] != nb[3]);
    let (fa, fb) = (native_flag_spec(a), native_flag_spec(b));
    assert(0x80u32 | fa != 0x80u32 | fb) by (bit_vector)
        requires
            fa != fb,
            fa < 0x80u32,
            fb < 0x80u32,
    ;
}

/// A canonical name, in any ASCII letter case, decodes to its topology, and encoding that
/// topology gives the lowercase form of the text back.
pub proof fn decode_encode_round_trip(s: Seq<char>, t: Topology)
    requires
        names(s, t),
    ensures
        decode_spec(s) == Some(t),
        name_of(t) == ascii_lower_seq(s),
{
    if decode_spec(s) != Some(t) {
        let u = decode_spec(s)->0;
        assert(names(s, u));
        names_and_flags_are_distinct(t, u);
    }
}

/// Encoding a topology and decoding the name gives the same topology back.
pub proof fn encode_decode_round_trip(t: Topology)
    ensures
        decode_spec(name_of(t)) == Some(t),
{
    let n = name_of(t);
    assert(ascii_lower_seq(n) =~= n);
    decode_encode_round_trip(n, t);
}

/// A text that names no topology, in any letter case, is refused by decoding.
pub proof fn unrecognized_text_is_refused(s: Seq<char>)
    requires
        forall|t: Topology| !names(s, t),
    ensures
        decode_spec(s) is None,
{
}

} // verus!
