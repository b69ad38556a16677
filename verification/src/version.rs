//! Version of the Conan executable and the API revision it speaks.

use crate::text::{
    chars_of, decimal_text, decimal_value, is_digit, is_number, lemma_decimal_text_value,
    lemma_trim_start_before, parse_u8, push_decimal, trim, trim_bounds, trim_start,
};
use std::cmp::Ordering;
use vstd::prelude::*;

verus! {

/// Version of the Conan executable. Versions are ordered by their major
/// component, then by their minor component, then by their patch component.
#[derive(Copy, Clone, Debug, PartialEq, Eq, Structural, Ord)]
pub struct ConanVersion {
    /// Major version component
    pub major: u8,
    /// Minor version component
    pub minor: u8,
    /// Patch version component
    pub patch: u8,
}

/// Revision of the command line interface: Conan 1.x and Conan 2.x take
/// different flags.
#[derive(Copy, Clone, Debug, PartialEq, Eq, Structural, PartialOrd, Ord)]
pub enum ConanApi {
    /// Conan 1.x API
    V1,
    /// Conan 2.x API
    V2,
}

impl Default for ConanApi {
    fn default() -> (api: Self)
        ensures
            api == ConanApi::V1,
    {
        ConanApi::V1
    }
}

impl ConanVersion {
    /// The API revision that a major version stands for, if any.
    pub open spec fn spec_api(self) -> Option<ConanApi> {
        if self.major == 1 {
            Some(ConanApi::V1)
        } else if self.major == 2 {
            Some(ConanApi::V2)
        } else {
            None
        }
    }

    /// Infers the API revision from the version: it depends on the major
    /// component alone, and a major version other than 1 or 2 has none.
    pub fn api(self) -> (api: Option<ConanApi>)
        ensures
            api == self.spec_api(),
    {
        match self.major {
            1 => Some(ConanApi::V1),
            2 => Some(ConanApi::V2),
            _ => None,
        }
    }
}

/// The text that ends in a version: `head`, the word `version`, a space, and
/// the three components with a full stop between them.
pub open spec fn version_line(
    head: Seq<char>,
    major: Seq<char>,
    minor: Seq<char>,
    patch: Seq<char>,
) -> Seq<char> {
    head + "version "@ + major + seq!['.'] + minor + seq!['.'] + patch
}

/// Where the digits that end at `end` start.
pub open spec fn digits_start(text: Seq<char>, end: int) -> int
    decreases end,
{
    if 0 < end <= text.len() && is_digit(text[end - 1]) {
        digits_start(text, end - 1)
    } else {
        end
    }
}

/// The three components of the version that `text` ends in, as they are
/// written: found from the end of the text backwards.
pub open spec fn version_parts(text: Seq<char>) -> Option<(Seq<char>, Seq<char>, Seq<char>)> {
    let n = text.len() as int;
    let patch = digits_start(text, n);
    let minor = digits_start(text, patch - 1);
    let major = digits_start(text, minor - 1);
    if patch < n && 0 < patch && text[patch - 1] == '.' && minor < patch - 1 && 0 < minor && text[minor
        - 1] == '.' && major < minor - 1 && 8 <= major && text.subrange(major - 8, major)
        == "version "@ {
        Some(
            (
                text.subrange(major, minor - 1),
                text.subrange(minor, patch - 1),
                text.subrange(patch, n),
            ),
        )
    } else {
        None
    }
}

proof fn lemma_digits_start(text: Seq<char>, end: int)
    requires
        0 <= end <= text.len(),
    ensures
        0 <= digits_start(text, end) <= end,
        forall|i: int| digits_start(text, end) <= i < end ==> is_digit(#[trigger] text[i]),
        digits_start(text, end) == 0 || !is_digit(text[digits_start(text, end) - 1]),
    decreases end,
{
    if 0 < end && is_digit(text[end - 1]) {
        lemma_digits_start(text, end - 1);
    }
}

proof fn lemma_digits_start_unique(text: Seq<char>, end: int, start: int)
    requires
        0 <= start <= end <= text.len(),
        forall|i: int| start <= i < end ==> is_digit(#[trigger] text[i]),
        start == 0 || !is_digit(text[start - 1]),
    ensures
        digits_start(text, end) == start,
    decreases end - start,
{
    if start < end {
        assert(is_digit(text[end - 1]));
        lemma_digits_start_unique(text, end - 1, start);
    }
}

/// A text that is written as [`version_line`] writes it has its three
/// components where [`version_parts`] looks for them.
proof fn lemma_version_line_parts(
    head: Seq<char>,
    major: Seq<char>,
    minor: Seq<char>,
    patch: Seq<char>,
)
    requires
        is_number(major),
        is_number(minor),
        is_number(patch),
    ensures
        version_parts(version_line(head, major, minor, patch)) == Some((major, minor, patch)),
{
    reveal_strlit("version ");
    let text = version_line(head, major, minor, patch);
    let n = text.len() as int;
    let at_patch = n - patch.len();
    let at_minor = at_patch - 1 - minor.len();
    let at_major = at_minor - 1 - major.len();
    assert(at_major == head.len() + 8);
    assert(text.subrange(at_patch, n) =~= patch);
    assert(text.subrange(at_minor, at_patch - 1) =~= minor);
    assert(text.subrange(at_major, at_minor - 1) =~= major);
    assert(text.subrange(at_major - 8, at_major) =~= "version "@);
    assert(text[at_patch - 1] == '.');
    assert(text[at_minor - 1] == '.');
    assert(text[at_major - 1] == ' ');
    assert forall|i: int| at_patch <= i < n implies is_digit(#[trigger] text[i]) by {
        assert(text[i] == patch[i - at_patch]);
    }
    assert forall|i: int| at_minor <= i < at_patch - 1 implies is_digit(#[trigger] text[i]) by {
        assert(text[i] == minor[i - at_minor]);
    }
    assert forall|i: int| at_major <= i < at_minor - 1 implies is_digit(#[trigger] text[i]) by {
        assert(text[i] == major[i - at_major]);
    }
    lemma_digits_start_unique(text, n, at_patch);
    lemma_digits_start_unique(text, at_patch - 1, at_minor);
    lemma_digits_start_unique(text, at_minor - 1, at_major);
}

/// Where [`version_parts`] finds three components, the text is written as
/// [`version_line`] writes it, and the components are numbers.
proof fn lemma_version_parts_line(text: Seq<char>)
    requires
        version_parts(text) is Some,
    ensures
        ({
            let (major, minor, patch) = version_parts(text)->0;
            &&& is_number(major)
            &&& is_number(minor)
            &&& is_number(patch)
            &&& exists|head: Seq<char>| #[trigger] version_line(head, major, minor, patch) == text
        }),
{
    reveal_strlit("version ");
    let n = text.len() as int;
    let at_patch = digits_start(text, n);
    lemma_digits_start(text, n);
    let at_minor = digits_start(text, at_patch - 1);
    lemma_digits_start(text, at_patch - 1);
    let at_major = digits_start(text, at_minor - 1);
    lemma_digits_start(text, at_minor - 1);
    let (major, minor, patch) = version_parts(text)->0;
    let head = text.subrange(0, at_major - 8);
    assert(version_line(head, major, minor, patch) =~= text) by {
        let line = version_line(head, major, minor, patch);
        assert(line.len() == text.len());
        assert forall|i: int| 0 <= i < line.len() implies line[i] == text[i] by {
            if at_major - 8 <= i < at_major {
                assert(text.subrange(at_major - 8, at_major)[i - (at_major - 8)] == text[i]);
            }
        }
    }
}

impl ConanVersion {
    /// Whether `output` names this version: without the white space around
    /// it, `output` ends in the word `version`, a space, and three decimal
    /// numbers with a full stop between them, whose values are the three
    /// components. Each number may have leading zeros.
    pub open spec fn is_named_by(self, output: Seq<char>) -> bool {
        exists|head: Seq<char>, major: Seq<char>, minor: Seq<char>, patch: Seq<char>|
            {
                &&& #[trigger] version_line(head, major, minor, patch) == trim(output)
                &&& is_number(major)
                &&& is_number(minor)
                &&& is_number(patch)
                &&& decimal_value(major) == self.major
                &&& decimal_value(minor) == self.minor
                &&& decimal_value(patch) == self.patch
            }
    }

    /// The version that `output` names, if it names one.
    pub open spec fn spec_query_from(output: Seq<char>) -> Option<ConanVersion> {
        if exists|version: ConanVersion| version.is_named_by(output) {
            Some(choose|version: ConanVersion| version.is_named_by(output))
        } else {
            None
        }
    }

    /// The version whose components [`version_parts`] finds in the trimmed
    /// output, where each of them fits in eight bits.
    pub open spec fn scanned_from(output: Seq<char>) -> Option<ConanVersion> {
        match version_parts(trim(output)) {
            Some((major, minor, patch)) => if decimal_value(major) <= u8::MAX && decimal_value(minor)
                <= u8::MAX && decimal_value(patch) <= u8::MAX {
                Some(
                    ConanVersion {
                        major: decimal_value(major) as u8,
                        minor: decimal_value(minor) as u8,
                        patch: decimal_value(patch) as u8,
                    },
                )
            } else {
                None
            },
            None => None,
        }
    }

    /// An output names the version that is found by reading it from its end,
    /// and no other.
    pub proof fn lemma_named_is_scanned(self, output: Seq<char>)
        ensures
            self.is_named_by(output) <==> Self::scanned_from(output) == Some(self),
    {
        let text = trim(output);
        if self.is_named_by(output) {
            let (head, major, minor, patch) = choose|
                head: Seq<char>,
                major: Seq<char>,
                minor: Seq<char>,
                patch: Seq<char>,
            |
                {
                    &&& #[trigger] version_line(head, major, minor, patch) == trim(output)
                    &&& is_number(major)
                    &&& is_number(minor)
                    &&& is_number(patch)
                    &&& decimal_value(major) == self.major
                    &&& decimal_value(minor) == self.minor
                    &&& decimal_value(patch) == self.patch
                };
            lemma_version_line_parts(head, major, minor, patch);
        }
        if Self::scanned_from(output) == Some(self) {
            lemma_version_parts_line(text);
            let (major, minor, patch) = version_parts(text)->0;
            let head = choose|head: Seq<char>| #[trigger]
                version_line(head, major, minor, patch) == text;
            assert(version_line(head, major, minor, patch) == trim(output));
        }
    }

    /// An output names at most one version, and [`ConanVersion::spec_query_from`]
    /// is the version found by reading the output from its end.
    pub proof fn lemma_query_is_scan(output: Seq<char>)
        ensures
            Self::spec_query_from(output) == Self::scanned_from(output),
    {
        match Self::scanned_from(output) {
            Some(version) => {
                version.lemma_named_is_scanned(output);
                let chosen = choose|version: ConanVersion| version.is_named_by(output);
                chosen.lemma_named_is_scanned(output);
            },
            None => {
                assert forall|version: ConanVersion| !version.is_named_by(output) by {
                    version.lemma_named_is_scanned(output);
                }
            },
        }
    }
}

/// Where the digits that end at `end` start.
fn find_digits_start(chars: &Vec<char>, end: usize) -> (start: usize)
    requires
        end <= chars.len(),
    ensures
        start == digits_start(chars@, end as int),
        start <= end,
{
    let mut start = end;
    while start > 0 && crate::text::digit(chars[start - 1])
        invariant
            start <= end <= chars.len(),
            digits_start(chars@, end as int) == digits_start(chars@, start as int),
        decreases start,
    {
        start -= 1;
    }
    start
}

/// Whether `word` stands in `chars` at `at`.
fn stands_at(chars: &Vec<char>, at: usize, word: &str) -> (found: bool)
    ensures
        found == (at + word@.len() <= chars.len() && chars@.subrange(
            at as int,
            at + word@.len(),
        ) == word@),
{
    let letters = chars_of(word);
    if letters.len() > chars.len() || at > chars.len() - letters.len() {
        return false;
    }
    let ghost found_chars = chars@.subrange(at as int, at + word@.len());
    let mut i: usize = 0;
    while i < letters.len()
        invariant
            i <= letters.len(),
            letters@ == word@,
            at + letters.len() <= chars.len(),
            found_chars == chars@.subrange(at as int, at + word@.len()),
            forall|k: int| 0 <= k < i ==> found_chars[k] == letters@[k],
        decreases letters.len() - i,
    {
        assert(found_chars[i as int] == chars@[at + i]);
        if chars[at + i] != letters[i] {
            return false;
        }
        i += 1;
    }
    assert(found_chars =~= word@);
    true
}

impl ConanVersion {
    /// Reads the version from what the executable printed when it was asked
    /// for it with `--version`, such as `Conan version 1.14.3`. There is a
    /// version if and only if the output, without the white space around it,
    /// ends in `version MAJOR.MINOR.PATCH`, each of the three a decimal number
    /// of at most 255.
    pub fn query_from(output: &str) -> (version: Option<Self>)
        ensures
            version == Self::spec_query_from(output@),
    {
        proof {
            Self::lemma_query_is_scan(output@);
        }
        let all = chars_of(output);
        let (from, to) = trim_bounds(&all);
        let chars = chars_of(output.substring_char(from, to));
        assert(chars@ == trim(output@));
        let n = chars.len();
        let patch = find_digits_start(&chars, n);
        if patch == n || patch == 0 || chars[patch - 1] != '.' {
            return None;
        }
        let minor = find_digits_start(&chars, patch - 1);
        if minor == patch - 1 || minor == 0 || chars[minor - 1] != '.' {
            return None;
        }
        let major = find_digits_start(&chars, minor - 1);
        if major == minor - 1 || major < 8 || !stands_at(&chars, major - 8, "version ") {
            return None;
        }
        proof {
            reveal_strlit("version ");
            lemma_version_parts_line(chars@);
        }
        let major_value = parse_u8(&chars, major, minor - 1);
        let minor_value = parse_u8(&chars, minor, patch - 1);
        let patch_value = parse_u8(&chars, patch, n);
        match (major_value, minor_value, patch_value) {
            (Some(major), Some(minor), Some(patch)) => Some(ConanVersion { major, minor, patch }),
            _ => None,
        }
    }

    /// The version as text: the three components with a full stop between
    /// them.
    pub open spec fn spec_text(self) -> Seq<char> {
        decimal_text(self.major as nat) + seq!['.'] + decimal_text(self.minor as nat) + seq!['.']
            + decimal_text(self.patch as nat)
    }

    /// The version as text, such as `1.14.3`.
    pub fn to_text(&self) -> (text: String)
        ensures
            text@ == self.spec_text(),
    {
        proof {
            reveal_strlit(".");
        }
        let mut text = String::new();
        push_decimal(&mut text, self.major);
        text.append(".");
        push_decimal(&mut text, self.minor);
        text.append(".");
        push_decimal(&mut text, self.patch);
        assert(text@ =~= self.spec_text());
        text
    }
}

impl ConanVersion {
    /// Whether this version is older than `other`: the order of the triples
    /// (major, minor, patch) in which the first component that differs
    /// decides.
    pub open spec fn precedes(self, other: Self) -> bool {
        ||| self.major < other.major
        ||| self.major == other.major && self.minor < other.minor
        ||| self.major == other.major && self.minor == other.minor && self.patch < other.patch
    }

    /// The place of the version among all versions, counted from 0.0.0.
    pub open spec fn rank(self) -> int {
        self.major * 65536 + self.minor * 256 + self.patch
    }

    /// How this version compares with `other`.
    pub open spec fn compared_with(self, other: Self) -> Ordering {
        if self.precedes(other) {
            Ordering::Less
        } else if self == other {
            Ordering::Equal
        } else {
            Ordering::Greater
        }
    }

    /// Of two versions exactly one of three holds: the first is older, they
    /// are the same, or the second is older.
    pub proof fn lemma_order_is_total(self, other: Self)
        ensures
            self.precedes(other) || self == other || other.precedes(self),
            !(self.precedes(other) && self == other),
            !(self.precedes(other) && other.precedes(self)),
            !(self == other && other.precedes(self)),
    {
    }

    /// A version that is older than one that is older than a third is older
    /// than the third.
    pub proof fn lemma_order_is_transitive(self, middle: Self, other: Self)
        requires
            self.precedes(middle),
            middle.precedes(other),
        ensures
            self.precedes(other),
    {
    }

    /// The order of versions is the order of their places among all
    /// versions: the major component counts before the minor, and the minor
    /// before the patch.
    pub proof fn lemma_order_is_by_rank(self, other: Self)
        ensures
            self.precedes(other) <==> self.rank() < other.rank(),
            self == other <==> self.rank() == other.rank(),
    {
    }
}

impl PartialOrd for ConanVersion {
    fn partial_cmp(&self, other: &Self) -> (order: Option<Ordering>) {
        if self.major < other.major {
            Some(Ordering::Less)
        } else if self.major > other.major {
            Some(Ordering::Greater)
        } else if self.minor < other.minor {
            Some(Ordering::Less)
        } else if self.minor > other.minor {
            Some(Ordering::Greater)
        } else if self.patch < other.patch {
            Some(Ordering::Less)
        } else if self.patch > other.patch {
            Some(Ordering::Greater)
        } else {
            Some(Ordering::Equal)
        }
    }
}

impl vstd::std_specs::cmp::PartialOrdSpecImpl for ConanVersion {
    open spec fn obeys_partial_cmp_spec() -> bool {
        true
    }

    open spec fn partial_cmp_spec(&self, other: &Self) -> Option<Ordering> {
        Some(self.compared_with(*other))
    }
}

impl ConanVersion {
    /// Reading is the inverse of writing: an output that ends in the word
    /// `version`, a space and the text of a version names that version,
    /// whatever stands before the word.
    pub proof fn lemma_text_names_version(self, head: Seq<char>)
        ensures
            Self::spec_query_from(head + "version "@ + self.spec_text()) == Some(self),
    {
        reveal_strlit("version ");
        let major = decimal_text(self.major as nat);
        let minor = decimal_text(self.minor as nat);
        let patch = decimal_text(self.patch as nat);
        lemma_decimal_text_value(self.major as nat);
        lemma_decimal_text_value(self.minor as nat);
        lemma_decimal_text_value(self.patch as nat);
        let rest = "version "@ + self.spec_text();
        let output = head + "version "@ + self.spec_text();
        assert(output =~= head + rest);
        assert(rest.first() == 'v');
        lemma_trim_start_before(head, rest);
        let started = trim_start(head) + rest;
        assert(started.last() == patch.last());
        assert(is_digit(patch[patch.len() - 1]));
        assert(trim(output) == started);
        assert(version_line(trim_start(head), major, minor, patch) =~= started);
        assert(self.is_named_by(output));
        self.lemma_named_is_scanned(output);
        Self::lemma_query_is_scan(output);
    }
}

} // verus!
