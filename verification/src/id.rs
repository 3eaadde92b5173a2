//! Strongly-typed ids. Each id is a UUID (held as its 128-bit value) with a
//! kind prefix: its text is `<prefix>_<hyphenated uuid>`, and parsing takes
//! either that text or the bare UUID. New ids are version-7 UUIDs.

use vstd::prelude::*;

use crate::uuid_text::{format_hyphenated, hyphenated_text, is_v7, mint_v7, nibble, parse_uuid, uuid_parsed};

verus! {

/// Why a text is not an id: the part after the prefix is not a UUID.
#[derive(Debug, PartialEq, Eq)]
pub struct ParseIdError(pub uuid::Error);

/// `s` without `tag` in front, where it starts with `tag`; else `s` itself.
pub open spec fn strip_tag(tag: Seq<char>, s: Seq<char>) -> Seq<char> {
    if tag.is_prefix_of(s) {
        s.skip(tag.len() as int)
    } else {
        s
    }
}

/// The 128-bit value that the text `s` names as an id tagged `tag`, if any.
pub open spec fn parsed_id(tag: Seq<char>, s: Seq<char>) -> Option<u128> {
    uuid_parsed(strip_tag(tag, s))
}

proof fn lemma_hex_digit_not_underscore(v: u128, k: int)
    ensures
        hyphenated_char_is_not_underscore(v, k),
{
    let x = v >> ((124 - 4 * k) as u128);
    assert(x & 0xf <= 0xf) by (bit_vector);
}

spec fn hyphenated_char_is_not_underscore(v: u128, k: int) -> bool {
    crate::uuid_text::hex_digit(nibble(v, k)) != '_'
}

/// No character of a hyphenated UUID is an underscore.
proof fn lemma_no_underscore(v: u128, p: int)
    requires
        0 <= p < 36,
    ensures
        hyphenated_text(v)[p] != '_',
{
    if !crate::uuid_text::is_hyphen_position(p) {
        lemma_hex_digit_not_underscore(v, crate::uuid_text::digit_index(p));
    }
}

/// Whether `s` starts with `tag`.
fn has_tag(tag: &str, s: &str) -> (r: bool)
    ensures
        r == tag@.is_prefix_of(s@),
{
    let n = tag.unicode_len();
    let m = s.unicode_len();
    if n > m {
        return false;
    }
    let mut i: usize = 0;
    while i < n
        invariant
            n == tag@.len(),
            m == s@.len(),
            n <= m,
            i <= n,
            forall|j: int| 0 <= j < i ==> tag@[j] == s@[j],
        decreases n - i,
    {
        if tag.get_char(i) != s.get_char(i) {
            return false;
        }
        i = i + 1;
    }
    assert(tag@ =~= s@.subrange(0, n as int));
    true
}

/// The text of the id `v` tagged `tag`: the tag, then the hyphenated UUID.
fn render_id(tag: &str, v: u128) -> (s: String)
    ensures
        s@ == tag@ + hyphenated_text(v),
{
    let uuid = format_hyphenated(v);
    let mut s = String::from_str(tag);
    s.append(uuid.as_str());
    s
}

/// Parses an id tagged `tag` (which ends in an underscore): the tag is
/// optional, the rest must be a UUID.
fn parse_id(tag: &str, s: &str) -> (r: Result<u128, ParseIdError>)
    requires
        1 <= tag@.len() <= 36,
        tag@.last() == '_',
    ensures
        r is Ok <==> parsed_id(tag@, s@) is Some,
        r matches Ok(v) ==> parsed_id(tag@, s@) == Some(v),
        forall|v: u128| s@ == tag@ + #[trigger] hyphenated_text(v) ==> r is Ok && r->Ok_0 == v,
        forall|v: u128| s@ == #[trigger] hyphenated_text(v) ==> r is Ok && r->Ok_0 == v,
{
    let rest = if has_tag(tag, s) {
        let n = tag.unicode_len();
        let m = s.unicode_len();
        s.substring_char(n, m)
    } else {
        s
    };
    assert(rest@ == strip_tag(tag@, s@));
    proof {
        assert forall|v: u128| s@ == tag@ + #[trigger] hyphenated_text(v) implies rest@
            == hyphenated_text(v) by {
            assert(tag@.is_prefix_of(s@)) by {
                assert(tag@ =~= s@.subrange(0, tag@.len() as int));
            }
            assert(s@.skip(tag@.len() as int) =~= hyphenated_text(v));
        }
        assert forall|v: u128| s@ == #[trigger] hyphenated_text(v) implies rest@ == hyphenated_text(
            v,
        ) by {
            let last = tag@.len() - 1;
            lemma_no_underscore(v, last);
            if tag@.is_prefix_of(s@) {
                assert(s@[last] == tag@[last]);
            }
        }
    }
    match parse_uuid(rest) {
        Ok(v) => Ok(v),
        Err(e) => Err(ParseIdError(e)),
    }
}

/// Strongly-typed id for a [`crate::decision::Decision`]; its text reads `dec_<uuid>`.
#[derive(Clone, Copy, Debug, PartialEq, Eq, Structural, Hash, PartialOrd, Ord)]
pub struct DecisionId(pub u128);

impl DecisionId {
    /// A fresh id: a new version-7 UUID.
    pub fn new() -> (id: Self)
        ensures
            is_v7(id.0),
    {
        DecisionId(mint_v7())
    }

    /// The id whose UUID has the 128-bit value `v`.
    pub fn from_u128(v: u128) -> (id: Self)
        ensures
            id.0 == v,
    {
        DecisionId(v)
    }

    /// The 128-bit value of the id's UUID.
    pub fn as_u128(&self) -> (v: u128)
        ensures
            v == self.0,
    {
        self.0
    }

    /// The id's text: `dec_` and the hyphenated UUID.
    pub fn to_string(&self) -> (s: String)
        ensures
            s@ == "dec_"@ + hyphenated_text(self.0),
    {
        render_id("dec_", self.0)
    }

    /// Parses the id's text; the `dec_` prefix may be left off. Parsing
    /// the text that [`Self::to_string`] gives returns the same id.
    pub fn parse_str(s: &str) -> (r: Result<Self, ParseIdError>)
        ensures
            r is Ok <==> parsed_id("dec_"@, s@) is Some,
            r matches Ok(id) ==> parsed_id("dec_"@, s@) == Some(id.0),
            forall|v: u128| s@ == "dec_"@ + #[trigger] hyphenated_text(v) ==> r == Ok::<Self, ParseIdError>(DecisionId(v)),
            forall|v: u128| s@ == #[trigger] hyphenated_text(v) ==> r == Ok::<Self, ParseIdError>(DecisionId(v)),
    {
        proof {
            reveal_strlit("dec_");
        }
        match parse_id("dec_", s) {
            Ok(v) => Ok(DecisionId(v)),
            Err(e) => Err(e),
        }
    }
}

impl Default for DecisionId {
    /// A fresh id, as [`DecisionId::new`].
    fn default() -> (id: Self)
        ensures
            is_v7(id.0),
    {
        Self::new()
    }
}

impl core::str::FromStr for DecisionId {
    type Err = ParseIdError;

    /// Parses the id's text, as [`DecisionId::parse_str`].
    fn from_str(s: &str) -> (r: Result<Self, ParseIdError>)
        ensures
            r is Ok <==> parsed_id("dec_"@, s@) is Some,
            r matches Ok(id) ==> parsed_id("dec_"@, s@) == Some(id.0),
            forall|v: u128| s@ == "dec_"@ + #[trigger] hyphenated_text(v) ==> r == Ok::<Self, ParseIdError>(DecisionId(v)),
            forall|v: u128| s@ == #[trigger] hyphenated_text(v) ==> r == Ok::<Self, ParseIdError>(DecisionId(v)),
    {
        Self::parse_str(s)
    }
}

/// Strongly-typed id for a [`crate::directive::Directive`]; its text reads `dir_<uuid>`.
#[derive(Clone, Copy, Debug, PartialEq, Eq, Structural, Hash, PartialOrd, Ord)]
pub struct DirectiveId(pub u128);

impl DirectiveId {
    /// A fresh id: a new version-7 UUID.
    pub fn new() -> (id: Self)
        ensures
            is_v7(id.0),
    {
        DirectiveId(mint_v7())
    }

    /// The id whose UUID has the 128-bit value `v`.
    pub fn from_u128(v: u128) -> (id: Self)
        ensures
            id.0 == v,
    {
        DirectiveId(v)
    }

    /// The 128-bit value of the id's UUID.
    pub fn as_u128(&self) -> (v: u128)
        ensures
            v == self.0,
    {
        self.0
    }

    /// The id's text: `dir_` and the hyphenated UUID.
    pub fn to_string(&self) -> (s: String)
        ensures
            s@ == "dir_"@ + hyphenated_text(self.0),
    {
        render_id("dir_", self.0)
    }

    /// Parses the id's text; the `dir_` prefix may be left off. Parsing
    /// the text that [`Self::to_string`] gives returns the same id.
    pub fn parse_str(s: &str) -> (r: Result<Self, ParseIdError>)
        ensures
            r is Ok <==> parsed_id("dir_"@, s@) is Some,
            r matches Ok(id) ==> parsed_id("dir_"@, s@) == Some(id.0),
            forall|v: u128| s@ == "dir_"@ + #[trigger] hyphenated_text(v) ==> r == Ok::<Self, ParseIdError>(DirectiveId(v)),
            forall|v: u128| s@ == #[trigger] hyphenated_text(v) ==> r == Ok::<Self, ParseIdError>(DirectiveId(v)),
    {
        proof {
            reveal_strlit("dir_");
        }
        match parse_id("dir_", s) {
            Ok(v) => Ok(DirectiveId(v)),
            Err(e) => Err(e),
        }
    }
}

impl Default for DirectiveId {
    /// A fresh id, as [`DirectiveId::new`].
    fn default() -> (id: Self)
        ensures
            is_v7(id.0),
    {
        Self::new()
    }
}

impl core::str::FromStr for DirectiveId {
    type Err = ParseIdError;

    /// Parses the id's text, as [`DirectiveId::parse_str`].
    fn from_str(s: &str) -> (r: Result<Self, ParseIdError>)
        ensures
            r is Ok <==> parsed_id("dir_"@, s@) is Some,
            r matches Ok(id) ==> parsed_id("dir_"@, s@) == Some(id.0),
            forall|v: u128| s@ == "dir_"@ + #[trigger] hyphenated_text(v) ==> r == Ok::<Self, ParseIdError>(DirectiveId(v)),
            forall|v: u128| s@ == #[trigger] hyphenated_text(v) ==> r == Ok::<Self, ParseIdError>(DirectiveId(v)),
    {
        Self::parse_str(s)
    }
}

/// Strongly-typed id for a plan owned by the planning layer; its text reads `pln_<uuid>`.
#[derive(Clone, Copy, Debug, PartialEq, Eq, Structural, Hash, PartialOrd, Ord)]
pub struct PlanId(pub u128);

impl PlanId {
    /// A fresh id: a new version-7 UUID.
    pub fn new() -> (id: Self)
        ensures
            is_v7(id.0),
    {
        PlanId(mint_v7())
    }

    /// The id whose UUID has the 128-bit value `v`.
    pub fn from_u128(v: u128) -> (id: Self)
        ensures
            id.0 == v,
    {
        PlanId(v)
    }

    /// The 128-bit value of the id's UUID.
    pub fn as_u128(&self) -> (v: u128)
        ensures
            v == self.0,
    {
        self.0
    }

    /// The id's text: `pln_` and the hyphenated UUID.
    pub fn to_string(&self) -> (s: String)
        ensures
            s@ == "pln_"@ + hyphenated_text(self.0),
    {
        render_id("pln_", self.0)
    }

    /// Parses the id's text; the `pln_` prefix may be left off. Parsing
    /// the text that [`Self::to_string`] gives returns the same id.
    pub fn parse_str(s: &str) -> (r: Result<Self, ParseIdError>)
        ensures
            r is Ok <==> parsed_id("pln_"@, s@) is Some,
            r matches Ok(id) ==> parsed_id("pln_"@, s@) == Some(id.0),
            forall|v: u128| s@ == "pln_"@ + #[trigger] hyphenated_text(v) ==> r == Ok::<Self, ParseIdError>(PlanId(v)),
            forall|v: u128| s@ == #[trigger] hyphenated_text(v) ==> r == Ok::<Self, ParseIdError>(PlanId(v)),
    {
        proof {
            reveal_strlit("pln_");
        }
        match parse_id("pln_", s) {
            Ok(v) => Ok(PlanId(v)),
            Err(e) => Err(e),
        }
    }
}

impl Default for PlanId {
    /// A fresh id, as [`PlanId::new`].
    fn default() -> (id: Self)
        ensures
            is_v7(id.0),
    {
        Self::new()
    }
}

impl core::str::FromStr for PlanId {
    type Err = ParseIdError;

    /// Parses the id's text, as [`PlanId::parse_str`].
    fn from_str(s: &str) -> (r: Result<Self, ParseIdError>)
        ensures
            r is Ok <==> parsed_id("pln_"@, s@) is Some,
            r matches Ok(id) ==> parsed_id("pln_"@, s@) == Some(id.0),
            forall|v: u128| s@ == "pln_"@ + #[trigger] hyphenated_text(v) ==> r == Ok::<Self, ParseIdError>(PlanId(v)),
            forall|v: u128| s@ == #[trigger] hyphenated_text(v) ==> r == Ok::<Self, ParseIdError>(PlanId(v)),
    {
        Self::parse_str(s)
    }
}

/// Strongly-typed id for a project; its text reads `prj_<uuid>`.
#[derive(Clone, Copy, Debug, PartialEq, Eq, Structural, Hash, PartialOrd, Ord)]
pub struct ProjectId(pub u128);

impl ProjectId {
    /// A fresh id: a new version-7 UUID.
    pub fn new() -> (id: Self)
        ensures
            is_v7(id.0),
    {
        ProjectId(mint_v7())
    }

    /// The id whose UUID has the 128-bit value `v`.
    pub fn from_u128(v: u128) -> (id: Self)
        ensures
            id.0 == v,
    {
        ProjectId(v)
    }

    /// The 128-bit value of the id's UUID.
    pub fn as_u128(&self) -> (v: u128)
        ensures
            v == self.0,
    {
        self.0
    }

    /// The id's text: `prj_` and the hyphenated UUID.
    pub fn to_string(&self) -> (s: String)
        ensures
            s@ == "prj_"@ + hyphenated_text(self.0),
    {
        render_id("prj_", self.0)
    }

    /// Parses the id's text; the `prj_` prefix may be left off. Parsing
    /// the text that [`Self::to_string`] gives returns the same id.
    pub fn parse_str(s: &str) -> (r: Result<Self, ParseIdError>)
        ensures
            r is Ok <==> parsed_id("prj_"@, s@) is Some,
            r matches Ok(id) ==> parsed_id("prj_"@, s@) == Some(id.0),
            forall|v: u128| s@ == "prj_"@ + #[trigger] hyphenated_text(v) ==> r == Ok::<Self, ParseIdError>(ProjectId(v)),
            forall|v: u128| s@ == #[trigger] hyphenated_text(v) ==> r == Ok::<Self, ParseIdError>(ProjectId(v)),
    {
        proof {
            reveal_strlit("prj_");
        }
        match parse_id("prj_", s) {
            Ok(v) => Ok(ProjectId(v)),
            Err(e) => Err(e),
        }
    }
}

impl Default for ProjectId {
    /// A fresh id, as [`ProjectId::new`].
    fn default() -> (id: Self)
        ensures
            is_v7(id.0),
    {
        Self::new()
    }
}

impl core::str::FromStr for ProjectId {
    type Err = ParseIdError;

    /// Parses the id's text, as [`ProjectId::parse_str`].
    fn from_str(s: &str) -> (r: Result<Self, ParseIdError>)
        ensures
            r is Ok <==> parsed_id("prj_"@, s@) is Some,
            r matches Ok(id) ==> parsed_id("prj_"@, s@) == Some(id.0),
            forall|v: u128| s@ == "prj_"@ + #[trigger] hyphenated_text(v) ==> r == Ok::<Self, ParseIdError>(ProjectId(v)),
            forall|v: u128| s@ == #[trigger] hyphenated_text(v) ==> r == Ok::<Self, ParseIdError>(ProjectId(v)),
    {
        Self::parse_str(s)
    }
}

/// Strongly-typed id for a task owned by the actions layer; its text reads `tsk_<uuid>`.
#[derive(Clone, Copy, Debug, PartialEq, Eq, Structural, Hash, PartialOrd, Ord)]
pub struct TaskId(pub u128);

impl TaskId {
    /// A fresh id: a new version-7 UUID.
    pub fn new() -> (id: Self)
        ensures
            is_v7(id.0),
    {
        TaskId(mint_v7())
    }

    /// The id whose UUID has the 128-bit value `v`.
    pub fn from_u128(v: u128) -> (id: Self)
        ensures
            id.0 == v,
    {
        TaskId(v)
    }

    /// The 128-bit value of the id's UUID.
    pub fn as_u128(&self) -> (v: u128)
        ensures
            v == self.0,
    {
        self.0
    }

    /// The id's text: `tsk_` and the hyphenated UUID.
    pub fn to_string(&self) -> (s: String)
        ensures
            s@ == "tsk_"@ + hyphenated_text(self.0),
    {
        render_id("tsk_", self.0)
    }

    /// Parses the id's text; the `tsk_` prefix may be left off. Parsing
    /// the text that [`Self::to_string`] gives returns the same id.
    pub fn parse_str(s: &str) -> (r: Result<Self, ParseIdError>)
        ensures
            r is Ok <==> parsed_id("tsk_"@, s@) is Some,
            r matches Ok(id) ==> parsed_id("tsk_"@, s@) == Some(id.0),
            forall|v: u128| s@ == "tsk_"@ + #[trigger] hyphenated_text(v) ==> r == Ok::<Self, ParseIdError>(TaskId(v)),
            forall|v: u128| s@ == #[trigger] hyphenated_text(v) ==> r == Ok::<Self, ParseIdError>(TaskId(v)),
    {
        proof {
            reveal_strlit("tsk_");
        }
        match parse_id("tsk_", s) {
            Ok(v) => Ok(TaskId(v)),
            Err(e) => Err(e),
        }
    }
}

impl Default for TaskId {
    /// A fresh id, as [`TaskId::new`].
    fn default() -> (id: Self)
        ensures
            is_v7(id.0),
    {
        Self::new()
    }
}

impl core::str::FromStr for TaskId {
    type Err = ParseIdError;

    /// Parses the id's text, as [`TaskId::parse_str`].
    fn from_str(s: &str) -> (r: Result<Self, ParseIdError>)
        ensures
            r is Ok <==> parsed_id("tsk_"@, s@) is Some,
            r matches Ok(id) ==> parsed_id("tsk_"@, s@) == Some(id.0),
            forall|v: u128| s@ == "tsk_"@ + #[trigger] hyphenated_text(v) ==> r == Ok::<Self, ParseIdError>(TaskId(v)),
            forall|v: u128| s@ == #[trigger] hyphenated_text(v) ==> r == Ok::<Self, ParseIdError>(TaskId(v)),
    {
        Self::parse_str(s)
    }
}

} // verus!
