//! The repeat state of a playback session: cycling through the three
//! states, mapping them to and from the external API's representation,
//! and parsing them from a user-facing token.

use vstd::prelude::*;

use crate::error::Error;

verus! {

/// ASCII whitespace, the characters stripped from both ends of a token.
pub open spec fn is_space_char(c: char) -> bool {
    c == ' ' || c == '\t' || c == '\n' || c == '\r'
}

/// The sequence with its leading whitespace removed.
pub open spec fn trim_start_spec(s: Seq<char>) -> Seq<char>
    decreases s.len(),
{
    if s.len() > 0 && is_space_char(s[0]) {
        trim_start_spec(s.drop_first())
    } else {
        s
    }
}

/// The sequence with its trailing whitespace removed.
pub open spec fn trim_end_spec(s: Seq<char>) -> Seq<char>
    decreases s.len(),
{
    if s.len() > 0 && is_space_char(s.last()) {
        trim_end_spec(s.drop_last())
    } else {
        s
    }
}

/// The sequence with whitespace removed from both ends.
pub open spec fn trim_spec(s: Seq<char>) -> Seq<char> {
    trim_end_spec(trim_start_spec(s))
}

/// A character folded for case-insensitive comparison: ASCII uppercase
/// letters map to the code of their lowercase form, everything else to its
/// own code.
pub open spec fn fold_char(c: char) -> int {
    if 'A' as u32 <= c as u32 && c as u32 <= 'Z' as u32 {
        c as int + 32
    } else {
        c as int
    }
}

/// A sequence folded character by character; two sequences are equal up to
/// ASCII case exactly when their folded forms are equal.
pub open spec fn folded(s: Seq<char>) -> Seq<int> {
    s.map_values(|c: char| fold_char(c))
}

/// The repeat state named by a token, if any: the token is trimmed of
/// surrounding whitespace, then compared ignoring ASCII case against the
/// short and long forms `o`/`off`, `c`/`context` and `t`/`track`.
pub open spec fn spec_from_token(s: Seq<char>) -> Option<RepeatState> {
    let t = folded(trim_spec(s));
    if t == folded("o"@) || t == folded("off"@) {
        Some(RepeatState::Off)
    } else if t == folded("c"@) || t == folded("context"@) {
        Some(RepeatState::Context)
    } else if t == folded("t"@) || t == folded("track"@) {
        Some(RepeatState::Track)
    } else {
        None
    }
}

/// Playback-loop mode: no repeat, repeat the surrounding context, or
/// repeat the current track.
#[derive(Clone, Copy, Debug, PartialEq, Eq, Structural)]
pub enum RepeatState {
    /// No repeat.
    Off,
    /// Repeat the current playlist or album.
    Context,
    /// Repeat the current track.
    Track,
}

/// The external API's own three-valued repeat mode, mirrored here as plain
/// data so that the mapping between the two representations can be stated
/// and checked; the application layer converts it to the web-API client's
/// type variant for variant.
#[derive(Clone, Copy, Debug, PartialEq, Eq, Structural)]
pub enum ExternalRepeatState {
    /// No repeat.
    Off,
    /// Repeat the current playlist or album.
    Context,
    /// Repeat the current track.
    Track,
}

impl RepeatState {
    /// The successor of a state in the fixed cycle
    /// `Off -> Context -> Track -> Off`.
    pub open spec fn spec_cycle(self) -> RepeatState {
        match self {
            RepeatState::Off => RepeatState::Context,
            RepeatState::Context => RepeatState::Track,
            RepeatState::Track => RepeatState::Off,
        }
    }

    /// Return the next repeat state to cycle through.
    pub fn cycle(&self) -> (next: Self)
        ensures
            next == self.spec_cycle(),
    {
        match self {
            RepeatState::Off => RepeatState::Context,
            RepeatState::Context => RepeatState::Track,
            RepeatState::Track => RepeatState::Off,
        }
    }
}

/// The local state that stands for an external value.
pub open spec fn spec_from_external(x: ExternalRepeatState) -> RepeatState {
    match x {
        ExternalRepeatState::Off => RepeatState::Off,
        ExternalRepeatState::Context => RepeatState::Context,
        ExternalRepeatState::Track => RepeatState::Track,
    }
}

/// The external value that stands for a local state.
pub open spec fn spec_to_external(s: RepeatState) -> ExternalRepeatState {
    match s {
        RepeatState::Off => ExternalRepeatState::Off,
        RepeatState::Context => ExternalRepeatState::Context,
        RepeatState::Track => ExternalRepeatState::Track,
    }
}

impl From<ExternalRepeatState> for RepeatState {
    fn from(val: ExternalRepeatState) -> (r: Self) {
        match val {
            ExternalRepeatState::Off => RepeatState::Off,
            ExternalRepeatState::Context => RepeatState::Context,
            ExternalRepeatState::Track => RepeatState::Track,
        }
    }
}

impl vstd::std_specs::convert::FromSpecImpl<ExternalRepeatState> for RepeatState {
    open spec fn obeys_from_spec() -> bool {
        true
    }

    open spec fn from_spec(v: ExternalRepeatState) -> RepeatState {
        spec_from_external(v)
    }
}

impl From<RepeatState> for ExternalRepeatState {
    fn from(val: RepeatState) -> (r: Self) {
        match val {
            RepeatState::Off => ExternalRepeatState::Off,
            RepeatState::Context => ExternalRepeatState::Context,
            RepeatState::Track => ExternalRepeatState::Track,
        }
    }
}

impl vstd::std_specs::convert::FromSpecImpl<RepeatState> for ExternalRepeatState {
    open spec fn obeys_from_spec() -> bool {
        true
    }

    open spec fn from_spec(v: RepeatState) -> ExternalRepeatState {
        spec_to_external(v)
    }
}

proof fn lemma_trim_start_subrange(s: Seq<char>, a: int)
    requires
        0 <= a <= s.len(),
        forall|j: int| 0 <= j < a ==> is_space_char(s[j]),
        a < s.len() ==> !is_space_char(s[a]),
    ensures
        trim_start_spec(s) == s.subrange(a, s.len() as int),
    decreases a,
{
    if a == 0 {
        assert(s.subrange(0, s.len() as int) =~= s);
    } else {
        assert(is_space_char(s[0]));
        lemma_trim_start_subrange(s.drop_first(), a - 1);
        assert(s.drop_first().subrange(a - 1, s.drop_first().len() as int) =~= s.subrange(
            a,
            s.len() as int,
        ));
    }
}

proof fn lemma_trim_end_subrange(s: Seq<char>, b: int)
    requires
        0 <= b <= s.len(),
        forall|j: int| b <= j < s.len() ==> is_space_char(s[j]),
        b > 0 ==> !is_space_char(s[b - 1]),
    ensures
        trim_end_spec(s) == s.subrange(0, b),
    decreases s.len() - b,
{
    if b == s.len() {
        if s.len() > 0 {
            assert(!is_space_char(s.last()));
        }
        assert(s.subrange(0, s.len() as int) =~= s);
    } else {
        assert(is_space_char(s.last()));
        lemma_trim_end_subrange(s.drop_last(), b);
        assert(s.drop_last().subrange(0, b) =~= s.subrange(0, b));
    }
}

/// Trimming both ends is taking the subrange between the first and last
/// non-whitespace characters.
proof fn lemma_trim_subrange(s: Seq<char>, a: int, b: int)
    requires
        0 <= a <= b <= s.len(),
        forall|j: int| 0 <= j < a ==> is_space_char(s[j]),
        forall|j: int| b <= j < s.len() ==> is_space_char(s[j]),
        a < b ==> !is_space_char(s[a]) && !is_space_char(s[b - 1]),
        a == b ==> a == s.len(),
    ensures
        trim_spec(s) == s.subrange(a, b),
{
    lemma_trim_start_subrange(s, a);
    let t = s.subrange(a, s.len() as int);
    lemma_trim_end_subrange(t, b - a);
    assert(t.subrange(0, b - a) =~= s.subrange(a, b));
}

/// Whether a character is stripped when a token is trimmed.
fn is_space(c: char) -> (b: bool)
    ensures
        b == is_space_char(c),
{
    c == ' ' || c == '\t' || c == '\n' || c == '\r'
}

/// The case-folded code of a character.
fn fold_char_exec(c: char) -> (r: u32)
    ensures
        r == fold_char(c),
{
    let u = c as u32;
    if 'A' as u32 <= u && u <= 'Z' as u32 {
        u + 32
    } else {
        u
    }
}

/// Whether two strings are equal ignoring ASCII case.
fn eq_fold(a: &str, kw: &str) -> (r: bool)
    ensures
        r == (folded(a@) == folded(kw@)),
{
    let n = a.unicode_len();
    let m = kw.unicode_len();
    if n != m {
        assert(folded(a@).len() != folded(kw@).len());
        return false;
    }
    let mut i: usize = 0;
    while i < n
        invariant
            i <= n,
            n == a@.len(),
            n == kw@.len(),
            forall|j: int| 0 <= j < i ==> fold_char(a@[j]) == fold_char(kw@[j]),
        decreases n - i,
    {
        if fold_char_exec(a.get_char(i)) != fold_char_exec(kw.get_char(i)) {
            assert(folded(a@)[i as int] != folded(kw@)[i as int]);
            return false;
        }
        i += 1;
    }
    assert(folded(a@) =~= folded(kw@));
    true
}

impl RepeatState {
    /// Parse a repeat state from a user-facing token: whitespace around the
    /// token is ignored, matching ignores ASCII case, and both the short
    /// and the long form of each state are accepted (`o`/`off`,
    /// `c`/`context`, `t`/`track`). Every other token is rejected.
    pub fn from_token(token: &str) -> (r: Result<RepeatState, Error>)
        ensures
            match r {
                Ok(s) => spec_from_token(token@) == Some(s),
                Err(e) => spec_from_token(token@) is None && e == Error::InvalidRepeatStateToken,
            },
    {
        let n = token.unicode_len();
        let mut a: usize = 0;
        while a < n && is_space(token.get_char(a))
            invariant
                a <= n,
                n == token@.len(),
                forall|j: int| 0 <= j < a ==> is_space_char(token@[j]),
            decreases n - a,
        {
            a += 1;
        }
        let mut b: usize = n;
        while b > a && is_space(token.get_char(b - 1))
            invariant
                a <= b <= n,
                n == token@.len(),
                forall|j: int| b <= j < n ==> is_space_char(token@[j]),
            decreases b,
        {
            b -= 1;
        }
        proof {
            lemma_trim_subrange(token@, a as int, b as int);
        }
        let t = token.substring_char(a, b);
        if eq_fold(t, "o") || eq_fold(t, "off") {
            Ok(RepeatState::Off)
        } else if eq_fold(t, "c") || eq_fold(t, "context") {
            Ok(RepeatState::Context)
        } else if eq_fold(t, "t") || eq_fold(t, "track") {
            Ok(RepeatState::Track)
        } else {
            Err(Error::InvalidRepeatStateToken)
        }
    }
}

/// Token parsing is deterministic and idempotent: the outcome is a pure
/// function of the token's characters, so repeated calls on identical
/// input describe identical results.
pub proof fn lemma_from_token_repeatable(s1: Seq<char>, s2: Seq<char>)
    requires
        s1 == s2,
    ensures
        spec_from_token(s1) == spec_from_token(s2),
{
}

/// Token parsing is insensitive to surrounding whitespace and ASCII case:
/// two tokens whose trimmed, case-folded forms agree parse to the same
/// result.
pub proof fn lemma_from_token_case_insensitive(s1: Seq<char>, s2: Seq<char>)
    requires
        folded(trim_spec(s1)) == folded(trim_spec(s2)),
    ensures
        spec_from_token(s1) == spec_from_token(s2),
{
}

/// Cycling is total and periodic with period three: every state is taken
/// back to itself after three steps, and the three states reached along
/// the way are pairwise distinct, so the cycle visits all three states
/// exactly once.
pub proof fn lemma_cycle_periodic(s: RepeatState)
    ensures
        s.spec_cycle().spec_cycle().spec_cycle() == s,
        s.spec_cycle() != s,
        s.spec_cycle().spec_cycle() != s,
        s.spec_cycle().spec_cycle() != s.spec_cycle(),
{
}

/// The external mapping is a bijection: converting a state to the external
/// representation and back is the identity, and so is the round trip
/// starting from an external value.
pub proof fn lemma_external_round_trip(s: RepeatState, x: ExternalRepeatState)
    ensures
        spec_from_external(spec_to_external(s)) == s,
        spec_to_external(spec_from_external(x)) == x,
{
}

} // verus!
