//! Persona references: the identity, display name and locations of one agent profile.

use vstd::prelude::*;
use vstd::string::*;
use crate::sort::{sort, sorted, Ordered};
use crate::text::{
    law_drop_spaces, law_find_from, law_skip_spaces, lemma_bytes_le_total, lemma_bytes_le_trans, push_range, str_le, text_le, is_space,
    is_space_char, lemma_find_char_bounds, chars_of, drop_spaces, drop_spaces_in, find_char, find_char_in, find_from, find_in,
    matches_at, matches_at_in, skip_spaces, skip_spaces_in, substring,
};

verus! {

broadcast use vstd::string::group_string_axioms;

/// The metadata block at the head of a persona file.
#[derive(Debug, Clone)]
pub struct PersonaFrontmatter {
    pub persona_id: String,
    pub avatar_url: Option<String>,
    pub knowledgebase_dir: Option<String>,
}

/// One persona as the rest of the crate reads it.
///
/// `id` is an opaque key, unique among the personas of one application; it is
/// compared and copied, never parsed. The two locations are file-system paths
/// as text.
#[derive(Debug)]
pub struct Persona {
    pub id: String,
    pub name: String,
    pub file_path: String,
    pub avatar_url: Option<String>,
    pub knowledgebase_path: Option<String>,
}

/// What a persona is in contracts: its fields as sequences of characters.
pub struct PersonaView {
    pub id: Seq<char>,
    pub name: Seq<char>,
    pub file_path: Seq<char>,
    pub avatar_url: Option<Seq<char>>,
    pub knowledgebase_path: Option<Seq<char>>,
}

/// The characters of an optional string.
pub open spec fn opt_text(s: Option<String>) -> Option<Seq<char>> {
    match s {
        Some(t) => Some(t@),
        None => None,
    }
}

impl View for Persona {
    type V = PersonaView;

    open spec fn view(&self) -> PersonaView {
        PersonaView {
            id: self.id@,
            name: self.name@,
            file_path: self.file_path@,
            avatar_url: opt_text(self.avatar_url),
            knowledgebase_path: opt_text(self.knowledgebase_path),
        }
    }
}

/// A copy of an optional string with the same characters.
pub fn clone_opt_string(s: &Option<String>) -> (r: Option<String>)
    ensures
        opt_text(r) == opt_text(*s),
{
    match s {
        Some(t) => Some(t.clone()),
        None => None,
    }
}

impl Clone for Persona {
    fn clone(&self) -> (r: Self)
        ensures
            r@ == self@,
    {
        Persona {
            id: self.id.clone(),
            name: self.name.clone(),
            file_path: self.file_path.clone(),
            avatar_url: clone_opt_string(&self.avatar_url),
            knowledgebase_path: clone_opt_string(&self.knowledgebase_path),
        }
    }
}

/// Why a persona file yields no metadata block.
#[derive(Debug, Clone, Copy, PartialEq, Eq, Structural)]
pub enum FrontmatterError {
    /// The file does not begin with the `---` that opens the block.
    Missing,
    /// No `---` closes the block.
    Unclosed,
}

impl FrontmatterError {
    /// The error in words.
    pub fn message(&self) -> (m: &'static str)
        ensures
            m@ == match *self {
                FrontmatterError::Missing => "No YAML frontmatter found"@,
                FrontmatterError::Unclosed => "Unclosed frontmatter"@,
            },
    {
        match self {
            FrontmatterError::Missing => "No YAML frontmatter found",
            FrontmatterError::Unclosed => "Unclosed frontmatter",
        }
    }
}

/// The metadata block of a persona file: what stands between the `---`
/// that follows the file's leading white space and the next `---`.
pub open spec fn frontmatter(content: Seq<char>) -> Result<Seq<char>, FrontmatterError> {
    let start = skip_spaces(content, 0, content.len() as int);
    if !matches_at(content, "---"@, start) {
        Err(FrontmatterError::Missing)
    } else {
        match find_from(content, "---"@, start + 3) {
            None => Err(FrontmatterError::Unclosed),
            Some(end) => Ok(content.subrange(start + 3, end)),
        }
    }
}

/// The heading that the line between `lo` and `hi` holds: with the white
/// space around the line left off, the line begins with `# `, and the
/// heading is what follows, again without white space around it.
pub open spec fn heading_in_line(s: Seq<char>, lo: int, hi: int) -> Option<Seq<char>> {
    let a = skip_spaces(s, lo, hi);
    let b = drop_spaces(s, a, hi);
    if a + 2 <= b && s[a] == '#' && s[a + 1] == ' ' {
        Some(s.subrange(skip_spaces(s, a + 2, b), b))
    } else {
        None
    }
}

/// The heading of the first line from position `lo` on that holds one.
/// Lines end at a line feed.
pub open spec fn heading_from(s: Seq<char>, lo: int) -> Option<Seq<char>>
    decreases s.len() + 1 - lo,
    via heading_from_decreases
{
    if 0 <= lo < s.len() {
        let hi = find_char(s, '\n', lo, s.len() as int);
        match heading_in_line(s, lo, hi) {
            Some(h) => Some(h),
            None => heading_from(s, hi + 1),
        }
    } else {
        None
    }
}

#[via_fn]
proof fn heading_from_decreases(s: Seq<char>, lo: int) {
    if 0 <= lo < s.len() {
        lemma_find_char_bounds(s, '\n', lo, s.len() as int);
    }
}

/// The metadata block of a result, in contracts.
pub open spec fn frontmatter_text(r: Result<String, FrontmatterError>) -> Result<
    Seq<char>,
    FrontmatterError,
> {
    match r {
        Ok(s) => Ok(s@),
        Err(e) => Err(e),
    }
}

impl Persona {
    /// The metadata block at the head of a persona file's text.
    pub fn extract_frontmatter(content: &str) -> (r: Result<String, FrontmatterError>)
        ensures
            frontmatter_text(r) == frontmatter(content@),
    {
        let chars = chars_of(content);
        let fence: Vec<char> = vec!['-', '-', '-'];
        proof {
            reveal_strlit("---");
            assert(fence@ =~= "---"@);
        }
        let start = skip_spaces_in(&chars, 0, chars.len());
        if !matches_at_in(&chars, &fence, start) {
            return Err(FrontmatterError::Missing);
        }
        match find_in(&chars, &fence, start + 3) {
            None => Err(FrontmatterError::Unclosed),
            Some(end) => {
                proof {
                    law_find_from(chars@, fence@, start + 3);
                }
                Ok(substring(content, start + 3, end))
            },
        }
    }

    /// The display name a persona file's text gives: the first heading of
    /// the first level.
    pub fn extract_name(content: &str) -> (r: Option<String>)
        ensures
            opt_text(r) == heading_from(content@, 0),
    {
        let chars = chars_of(content);
        let n = chars.len();
        let mut lo: usize = 0;
        while lo < n
            invariant
                lo <= n,
                n == chars@.len(),
                chars@ == content@,
                heading_from(content@, 0) == heading_from(content@, lo as int),
            decreases n - lo,
        {
            let hi = find_char_in(&chars, '\n', lo, n);
            let a = skip_spaces_in(&chars, lo, hi);
            let b = drop_spaces_in(&chars, a, hi);
            if b - a >= 2 && chars[a] == '#' && chars[a + 1] == ' ' {
                let from = skip_spaces_in(&chars, a + 2, b);
                return Some(substring(content, from, b));
            }
            if hi == n {
                assert(heading_from(content@, hi + 1) is None);
                return None;
            }
            lo = hi + 1;
        }
        None
    }
}

/// A metadata block is found exactly where the text is white space, the
/// opening `---`, the block, the closing `---` and whatever follows, with
/// no `---` beginning inside the block; the block found is that block.
pub proof fn law_frontmatter(content: Seq<char>)
    ensures
        match frontmatter(content) {
            Ok(block) => exists|start: int, end: int|
                {
                    &&& 0 <= start && start + 3 <= end && end + 3 <= content.len()
                    &&& forall|i: int| 0 <= i < start ==> is_space(content[i])
                    &&& #[trigger] matches_at(content, "---"@, start)
                    &&& #[trigger] matches_at(content, "---"@, end)
                    &&& forall|k: int| start + 3 <= k < end ==> !matches_at(content, "---"@, k)
                    &&& block == content.subrange(start + 3, end)
                },
            Err(FrontmatterError::Missing) => !matches_at(
                content,
                "---"@,
                skip_spaces(content, 0, content.len() as int),
            ),
            Err(FrontmatterError::Unclosed) => forall|k: int|
                skip_spaces(content, 0, content.len() as int) + 3 <= k ==> !matches_at(
                    content,
                    "---"@,
                    k,
                ),
        },
{
    reveal_strlit("---");
    let start = skip_spaces(content, 0, content.len() as int);
    law_skip_spaces(content, 0, content.len() as int);
    if matches_at(content, "---"@, start) {
        law_find_from(content, "---"@, start + 3);
        match find_from(content, "---"@, start + 3) {
            Some(end) => {
                assert(matches_at(content, "---"@, end));
            },
            None => {},
        }
    }
}

/// Whether the line between `lo` and `hi` is white space, `# ` at
/// position `mark`, white space again, the text between `from` and `to`,
/// which neither begins nor ends with white space, and white space to the
/// end.
pub open spec fn is_heading_line(s: Seq<char>, lo: int, hi: int, mark: int, from: int, to: int) -> bool {
    &&& lo <= mark && mark + 2 <= from < to <= hi
    &&& forall|i: int| lo <= i < mark ==> is_space(s[i])
    &&& s[mark] == '#' && s[mark + 1] == ' '
    &&& forall|i: int| mark + 2 <= i < from ==> is_space(s[i])
    &&& !is_space(s[from]) && !is_space(s[to - 1])
    &&& forall|i: int| to <= i < hi ==> is_space(s[i])
}

/// A line has a heading exactly where it is a heading line, and the heading
/// is then the text of that line.
pub proof fn law_heading_in_line(s: Seq<char>, lo: int, hi: int)
    requires
        0 <= lo <= hi <= s.len(),
    ensures
        heading_in_line(s, lo, hi) matches Some(h) ==> exists|mark: int, from: int, to: int|
            #[trigger] is_heading_line(s, lo, hi, mark, from, to) && h == s.subrange(from, to),
        heading_in_line(s, lo, hi) is None ==> forall|mark: int, from: int, to: int|
            !#[trigger] is_heading_line(s, lo, hi, mark, from, to),
{
    let a = skip_spaces(s, lo, hi);
    law_skip_spaces(s, lo, hi);
    let b = drop_spaces(s, a, hi);
    law_drop_spaces(s, a, hi);
    if a + 2 <= b && s[a] == '#' && s[a + 1] == ' ' {
        let from = skip_spaces(s, a + 2, b);
        law_skip_spaces(s, a + 2, b);
        assert(from < b);
        assert(is_heading_line(s, lo, hi, a, from, b));
    } else {
        assert forall|mark: int, from: int, to: int| !#[trigger] is_heading_line(
            s,
            lo,
            hi,
            mark,
            from,
            to,
        ) by {
            if is_heading_line(s, lo, hi, mark, from, to) {
                assert(mark == a) by {
                    if mark < a {
                        assert(is_space(s[mark]));
                    }
                }
                assert(to <= b) by {
                    if b < to {
                        assert(is_space(s[to - 1]));
                    }
                }
            }
        }
    }
}

/// Whether a character parts the words of a file name: white space or a hyphen.
pub open spec fn is_word_break(c: char) -> bool {
    c == '-' || is_space(c)
}

/// The first position from `lo` on that holds no word break; the length of
/// `s` where there is none.
pub open spec fn word_start(s: Seq<char>, lo: int) -> int
    decreases s.len() - lo,
{
    if 0 <= lo < s.len() && is_word_break(s[lo]) {
        word_start(s, lo + 1)
    } else {
        lo
    }
}

/// The first position from `lo` on that holds a word break; the length of
/// `s` where there is none.
pub open spec fn word_end(s: Seq<char>, lo: int) -> int
    decreases s.len() - lo,
{
    if 0 <= lo < s.len() && !is_word_break(s[lo]) {
        word_end(s, lo + 1)
    } else {
        lo
    }
}

/// The upper-case form of a character, as `char::to_uppercase` gives it:
/// one character or several.
pub uninterp spec fn uppercase(c: char) -> Seq<char>;

/// `char::to_uppercase`, collected into a string: the upper-case form of a
/// character by the Unicode tables of the standard library, which are not
/// written out here.
#[verifier::external_body]
fn to_uppercase(c: char) -> (upper: String)
    ensures
        upper@ == uppercase(c),
{
    c.to_uppercase().collect()
}

/// The words of `s` from position `lo` on, each with its first character in
/// upper case, with one space between them; `first` says that no word came
/// before.
pub open spec fn title_from(s: Seq<char>, lo: int, first: bool) -> Seq<char>
    decreases s.len() + 1 - lo,
    via title_from_decreases
{
    let a = word_start(s, lo);
    if 0 <= lo && a < s.len() {
        let b = word_end(s, a + 1);
        let gap = if first {
            Seq::<char>::empty()
        } else {
            seq![' ']
        };
        gap + uppercase(s[a]) + s.subrange(a + 1, b) + title_from(s, b, false)
    } else {
        Seq::empty()
    }
}

#[via_fn]
proof fn title_from_decreases(s: Seq<char>, lo: int, first: bool) {
    if 0 <= lo {
        lemma_word_bounds(s, lo);
        lemma_word_bounds(s, word_start(s, lo) + 1);
    }
}

/// The positions that `word_start` and `word_end` give lie between `lo`
/// and the length of `s`, for a position `lo` within it.
pub proof fn lemma_word_bounds(s: Seq<char>, lo: int)
    requires
        0 <= lo,
    ensures
        lo <= word_start(s, lo),
        lo <= word_end(s, lo),
        lo <= s.len() ==> word_start(s, lo) <= s.len() && word_end(s, lo) <= s.len(),
    decreases s.len() - lo,
{
    if lo < s.len() {
        lemma_word_bounds(s, lo + 1);
    }
}

/// The display name that a file name without its extension gives: its
/// words, parted by hyphens and white space, each with its first character
/// in upper case, with one space between them.
pub open spec fn title(stem: Seq<char>) -> Seq<char> {
    title_from(stem, 0, true)
}

/// Whether a file name has the extension `md`: it ends in `.md` and has
/// something before the dot.
pub open spec fn is_markdown_name(name: Seq<char>) -> bool {
    name.len() >= 4 && name.subrange(name.len() - 3, name.len() as int) == ".md"@
}

/// Whether a file name has the extension `md`.
pub fn has_markdown_extension(file_name: &str) -> (b: bool)
    ensures
        b == is_markdown_name(file_name@),
{
    let chars = chars_of(file_name);
    let n = chars.len();
    proof {
        reveal_strlit(".md");
    }
    if n < 4 {
        return false;
    }
    let b = chars[n - 3] == '.' && chars[n - 2] == 'm' && chars[n - 1] == 'd';
    proof {
        let tail = file_name@.subrange(n - 3, n as int);
        if b {
            assert(tail =~= ".md"@);
        } else {
            assert(tail[0] == chars@[n - 3]);
            assert(tail[1] == chars@[n - 2]);
            assert(tail[2] == chars@[n - 1]);
        }
    }
    b
}

impl Persona {
    /// The display name for a persona whose file gives none: made from the
    /// file's name without its extension (see `title`), or from `Unknown`
    /// where the file has no such name.
    pub fn name_from_stem(stem: Option<&str>) -> (name: String)
        ensures
            name@ == match stem {
                Some(s) => title(s@),
                None => title("Unknown"@),
            },
    {
        let text = match stem {
            Some(s) => s,
            None => "Unknown",
        };
        let chars = chars_of(text);
        let n = chars.len();
        let mut out = String::new();
        let mut lo: usize = 0;
        let mut first = true;
        let ghost wanted = match stem {
            Some(s) => title(s@),
            None => title("Unknown"@),
        };
        assert(out@ + title_from(chars@, 0, true) =~= title(chars@));
        loop
            invariant
                lo <= n,
                n == chars@.len(),
                wanted == title(chars@),
                wanted == match stem {
                    Some(s) => title(s@),
                    None => title("Unknown"@),
                },
                title(chars@) == out@ + title_from(chars@, lo as int, first),
            decreases n + 1 - lo,
        {
            let mut a = lo;
            while a < n && is_word_break_char(chars[a])
                invariant
                    lo <= a <= n,
                    n == chars@.len(),
                    word_start(chars@, lo as int) == word_start(chars@, a as int),
                decreases n - a,
            {
                a += 1;
            }
            if a >= n {
                assert(word_start(chars@, lo as int) == a);
                assert(out@ + Seq::<char>::empty() =~= out@);
                return out;
            }
            let mut b = a + 1;
            while b < n && !is_word_break_char(chars[b])
                invariant
                    a < b <= n,
                    n == chars@.len(),
                    word_end(chars@, a + 1) == word_end(chars@, b as int),
                decreases n - b,
            {
                b += 1;
            }
            let ghost before = out@;
            let ghost gap = if first {
                Seq::<char>::empty()
            } else {
                seq![' ']
            };
            if !first {
                out.push(' ');
            }
            let upper = to_uppercase(chars[a]);
            out.append(upper.as_str());
            push_range(&mut out, &chars, a + 1, b);
            proof {
                assert(out@ =~= before + (gap + uppercase(chars@[a as int]) + chars@.subrange(
                    a + 1,
                    b as int,
                )));
                assert(before + (gap + uppercase(chars@[a as int]) + chars@.subrange(
                    a + 1,
                    b as int,
                ) + title_from(chars@, b as int, false)) =~= out@ + title_from(
                    chars@,
                    b as int,
                    false,
                ));
            }
            first = false;
            lo = b;
        }
    }

    /// The persona that a file gives: its identity and avatar from the
    /// metadata block, its name from the first heading of the text or else
    /// from the file's name, and the knowledge base that the caller found
    /// for it.
    pub fn from_parts(
        meta: PersonaFrontmatter,
        content: &str,
        stem: Option<&str>,
        file_path: String,
        knowledgebase_path: Option<String>,
    ) -> (p: Self)
        ensures
            p@ == (PersonaView {
                id: meta.persona_id@,
                name: match heading_from(content@, 0) {
                    Some(h) => h,
                    None => match stem {
                        Some(s) => title(s@),
                        None => title("Unknown"@),
                    },
                },
                file_path: file_path@,
                avatar_url: opt_text(meta.avatar_url),
                knowledgebase_path: opt_text(knowledgebase_path),
            }),
    {
        let name = match Persona::extract_name(content) {
            Some(h) => h,
            None => Persona::name_from_stem(stem),
        };
        Persona {
            id: meta.persona_id,
            name,
            file_path,
            avatar_url: meta.avatar_url,
            knowledgebase_path,
        }
    }

    /// Sorts personas by name, in the order of strings. Personas of one
    /// name keep the order they had.
    pub fn sort_by_name(personas: Vec<Persona>) -> (r: Vec<Persona>)
        ensures
            r@ == sorted(personas@),
            crate::sort::in_order(r@),
            r@.to_multiset() == personas@.to_multiset(),
    {
        sort(personas)
    }
}

/// Whether a character parts the words of a file name.
fn is_word_break_char(c: char) -> (b: bool)
    ensures
        b == is_word_break(c),
{
    c == '-' || is_space_char(c)
}

impl Ordered for Persona {
    /// Personas come in the order of their names.
    open spec fn comes_before(&self, other: &Self) -> bool {
        text_le(self.name@, other.name@)
    }

    fn le(&self, other: &Self) -> (r: bool) {
        str_le(self.name.as_str(), other.name.as_str())
    }

    proof fn lemma_total(a: &Self, b: &Self) {
        lemma_bytes_le_total(vstd::utf8::encode_utf8(a.name@), vstd::utf8::encode_utf8(b.name@));
    }

    proof fn lemma_transitive(a: &Self, b: &Self, c: &Self) {
        lemma_bytes_le_trans(
            vstd::utf8::encode_utf8(a.name@),
            vstd::utf8::encode_utf8(b.name@),
            vstd::utf8::encode_utf8(c.name@),
        );
    }
}

} // verus!
