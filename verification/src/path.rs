//! The path convention of image resources: `/{folder}/{stage}/{file}`.
//!
//! The first segment names the asset folder, the second the stage the image
//! belongs to, the third the file. Whatever follows the third segment is not
//! part of the convention and is dropped when a path is rebuilt.

use crate::decimal::{decimal, is_digit, lemma_decimal_digits, push_decimal};
use vstd::prelude::*;
use vstd::std_specs::iter::IteratorSpec;

verus! {

/// The position of the first `/` in `s`, or the length of `s` if it holds none.
pub open spec fn first_slash(s: Seq<char>) -> nat
    decreases s.len(),
{
    if s.len() == 0 || s[0] == '/' {
        0
    } else {
        1 + first_slash(s.skip(1))
    }
}

/// What stands before the first `/` of `s`: all of `s` if it holds none.
pub open spec fn head_segment(s: Seq<char>) -> Seq<char> {
    s.take(first_slash(s) as int)
}

/// What follows the first `/` of `s`, if it holds one.
pub open spec fn after_head(s: Seq<char>) -> Option<Seq<char>> {
    if first_slash(s) < s.len() {
        Some(s.skip(first_slash(s) as int + 1))
    } else {
        None
    }
}

/// The pieces of `s` between its `/` separators, in order. There is always at
/// least one piece, and pieces may be empty.
pub open spec fn segments(s: Seq<char>) -> Seq<Seq<char>>
    decreases s.len(),
{
    if first_slash(s) < s.len() {
        seq![head_segment(s)] + segments(s.skip(first_slash(s) as int + 1))
    } else {
        seq![s]
    }
}

/// Whether `s` holds no `/`.
pub open spec fn slash_free(s: Seq<char>) -> bool {
    forall|i: int| 0 <= i < s.len() ==> s[i] != '/'
}

/// The three leading segments of an image path.
pub struct ImagePath {
    pub folder: String,
    pub stage: String,
    pub file: String,
}

/// The mathematical value of an [`ImagePath`].
pub struct ImagePathView {
    pub folder: Seq<char>,
    pub stage: Seq<char>,
    pub file: Seq<char>,
}

impl View for ImagePath {
    type V = ImagePathView;

    open spec fn view(&self) -> ImagePathView {
        ImagePathView { folder: self.folder@, stage: self.stage@, file: self.file@ }
    }
}

/// How an absolute path reads under the convention: it starts with `/` and
/// what follows has at least three segments, of which the first three are
/// kept.
pub open spec fn parse_path(path: Seq<char>) -> Option<ImagePathView> {
    if path.len() > 0 && path[0] == '/' && segments(path.skip(1)).len() >= 3 {
        let parts = segments(path.skip(1));
        Some(ImagePathView { folder: parts[0], stage: parts[1], file: parts[2] })
    } else {
        None
    }
}

/// The relative path `{folder}/{stage}/{file}` with `stage` in decimal.
pub open spec fn stage_path(folder: Seq<char>, stage: nat, file: Seq<char>) -> Seq<char> {
    folder + seq!['/'] + decimal(stage) + seq!['/'] + file
}

/// The relative path of the faded image of an edition: `{bucket}/4/{edition}.jpg`.
pub open spec fn faded_path(bucket: Seq<char>, edition: nat) -> Seq<char> {
    bucket + "/4/"@ + decimal(edition) + ".jpg"@
}

/// The relative path of the regular image of an edition at a stage:
/// `images/{stage}/{edition}.jpg`.
pub open spec fn restored_path(stage: nat, edition: nat) -> Seq<char> {
    "images/"@ + decimal(stage) + "/"@ + decimal(edition) + ".jpg"@
}

/// The position of the first `/` of `text`, counted in characters, or the
/// number of its characters if it holds none.
fn find_slash(text: &str) -> (at: usize)
    ensures
        at == first_slash(text@),
{
    let total = text.unicode_len();
    let mut chars = text.chars();
    let mut at: usize = 0;
    loop
        invariant
            at <= total,
            total == text@.len(),
            chars.obeys_prophetic_iter_laws(),
            chars.remaining() == text@.skip(at as int),
            forall|i: int| 0 <= i < at ==> text@[i] != '/',
        decreases total - at,
    {
        match chars.next() {
            Some(c) => {
                assert(c == text@[at as int]);
                if c == '/' {
                    proof {
                        lemma_first_slash_is(text@, at as int);
                    }
                    return at;
                }
                assert(text@.skip(at as int).drop_first() =~= text@.skip(at as int + 1));
                at = at + 1;
            },
            None => {
                proof {
                    lemma_first_slash_is(text@, at as int);
                }
                return at;
            },
        }
    }
}

impl ImagePath {
    /// Reads an absolute path under the convention. `None` if the path does
    /// not start with `/` or has fewer than three segments.
    pub fn parse(path: &str) -> (parsed: Option<ImagePath>)
        ensures
            parsed is Some <==> parse_path(path@) is Some,
            parsed matches Some(p) ==> Some(p@) == parse_path(path@),
    {
        let total = path.unicode_len();
        if total == 0 || path.get_char(0) != '/' {
            return None;
        }
        let rest0 = path.substring_char(1, total);
        let len0 = total - 1;
        let a = find_slash(rest0);
        proof {
            lemma_first_slash(rest0@);
            lemma_segments_head(rest0@);
        }
        if a >= len0 {
            return None;
        }
        let rest1 = rest0.substring_char(a + 1, len0);
        let len1 = len0 - a - 1;
        let b = find_slash(rest1);
        proof {
            lemma_first_slash(rest1@);
            lemma_segments_head(rest1@);
        }
        if b >= len1 {
            return None;
        }
        let rest2 = rest1.substring_char(b + 1, len1);
        let c = find_slash(rest2);
        proof {
            lemma_first_slash(rest2@);
            lemma_segments_head(rest2@);
        }
        let parsed = ImagePath {
            folder: String::from_str(rest0.substring_char(0, a)),
            stage: String::from_str(rest1.substring_char(0, b)),
            file: String::from_str(rest2.substring_char(0, c)),
        };
        proof {
            let parts = segments(rest0@);
            assert(parts == seq![head_segment(rest0@)] + segments(rest1@));
            assert(segments(rest1@) == seq![head_segment(rest1@)] + segments(rest2@));
            assert(parts[1] == segments(rest1@)[0]);
            assert(parts[2] == segments(rest1@)[1]);
            assert(segments(rest1@)[1] == segments(rest2@)[0]);
        }
        Some(parsed)
    }

    /// The relative path of the same file in the same folder at `stage`.
    pub fn with_stage(&self, stage: u8) -> (path: String)
        ensures
            path@ == stage_path(self.folder@, stage as nat, self.file@),
    {
        let mut path = self.folder.clone();
        path.append("/");
        push_decimal(&mut path, stage as u32);
        path.append("/");
        path.append(self.file.as_str());
        proof {
            reveal_strlit("/");
            assert("/"@ =~= seq!['/']);
        }
        path
    }
}

/// Builds the relative path of the faded image of `edition` in `bucket`.
pub fn build_faded_path(bucket: &str, edition: u32) -> (path: String)
    ensures
        path@ == faded_path(bucket@, edition as nat),
{
    let mut path = String::from_str(bucket);
    path.append("/4/");
    push_decimal(&mut path, edition);
    path.append(".jpg");
    path
}

/// Builds the relative path of the regular image of `edition` at `stage`.
pub fn build_restored_path(stage: u8, edition: u32) -> (path: String)
    ensures
        path@ == restored_path(stage as nat, edition as nat),
{
    let mut path = String::from_str("images/");
    push_decimal(&mut path, stage as u32);
    path.append("/");
    push_decimal(&mut path, edition);
    path.append(".jpg");
    path
}

/// `first_slash` is the least position that holds a `/`.
pub proof fn lemma_first_slash(s: Seq<char>)
    ensures
        0 <= first_slash(s) <= s.len(),
        forall|i: int| 0 <= i < first_slash(s) ==> s[i] != '/',
        first_slash(s) < s.len() ==> s[first_slash(s) as int] == '/',
    decreases s.len(),
{
    if s.len() == 0 || s[0] == '/' {
    } else {
        lemma_first_slash(s.skip(1));
        assert forall|i: int| 0 <= i < first_slash(s) implies s[i] != '/' by {
            if i > 0 {
                assert(s[i] == s.skip(1)[i - 1]);
            }
        }
        assert(first_slash(s) < s.len() ==> s[first_slash(s) as int] == s.skip(1)[first_slash(s) as int - 1]);
    }
}

/// A position that holds the first `/` of `s`, or its end, is `first_slash(s)`.
pub proof fn lemma_first_slash_is(s: Seq<char>, at: int)
    requires
        0 <= at <= s.len(),
        forall|i: int| 0 <= i < at ==> s[i] != '/',
        at < s.len() ==> s[at] == '/',
    ensures
        first_slash(s) == at,
{
    lemma_first_slash(s);
    if first_slash(s) < at {
    } else if at < first_slash(s) {
    }
}

/// Before a `/`, a text without `/` is the head segment, and what follows the
/// `/` is the rest.
pub proof fn lemma_segments_cons(head: Seq<char>, rest: Seq<char>)
    requires
        slash_free(head),
    ensures
        segments(head + seq!['/'] + rest) == seq![head] + segments(rest),
{
    let s = head + seq!['/'] + rest;
    lemma_first_slash_is(s, head.len() as int);
    assert(head_segment(s) =~= head);
    assert(s.skip(head.len() as int + 1) =~= rest);
}

/// A text without `/` is its own and only segment.
pub proof fn lemma_segments_single(s: Seq<char>)
    requires
        slash_free(s),
    ensures
        segments(s) == seq![s],
{
    lemma_first_slash_is(s, s.len() as int);
}

/// The first segment of what `segments` yields is the head segment, and the
/// result is never empty.
pub proof fn lemma_segments_head(s: Seq<char>)
    ensures
        segments(s).len() >= 1,
        segments(s)[0] == head_segment(s),
        after_head(s) is None ==> segments(s).len() == 1,
        after_head(s) matches Some(rest) ==> segments(s) == seq![head_segment(s)] + segments(
            rest,
        ),
{
    lemma_first_slash(s);
    if first_slash(s) < s.len() {
    } else {
        assert(head_segment(s) =~= s);
    }
}

/// Every segment is free of `/`.
pub proof fn lemma_segments_slash_free(s: Seq<char>)
    ensures
        forall|k: int| 0 <= k < segments(s).len() ==> slash_free(#[trigger] segments(s)[k]),
    decreases s.len(),
{
    lemma_first_slash(s);
    if first_slash(s) < s.len() {
        let rest = s.skip(first_slash(s) as int + 1);
        lemma_segments_slash_free(rest);
        assert forall|k: int| 0 <= k < segments(s).len() implies slash_free(
            #[trigger] segments(s)[k],
        ) by {
            if k > 0 {
                assert(segments(s)[k] == segments(rest)[k - 1]);
            }
        }
    } else {
        assert(segments(s)[0] =~= s);
    }
}

/// What `parse_path` keeps of a path holds no `/`.
pub proof fn lemma_parse_path_slash_free(path: Seq<char>)
    requires
        parse_path(path) is Some,
    ensures
        slash_free(parse_path(path)->0.folder),
        slash_free(parse_path(path)->0.stage),
        slash_free(parse_path(path)->0.file),
{
    lemma_segments_slash_free(path.skip(1));
}

/// A decimal numeral holds no `/`.
pub proof fn lemma_decimal_slash_free(n: nat)
    ensures
        slash_free(decimal(n)),
{
    lemma_decimal_digits(n);
    assert forall|i: int| 0 <= i < decimal(n).len() implies decimal(n)[i] != '/' by {
        assert(is_digit(decimal(n)[i]));
    }
}

/// Reading back a path built by `stage_path` from segments: the folder and the
/// file are those it was built from, and the stage is the numeral.
pub proof fn lemma_parse_stage_path(folder: Seq<char>, stage: nat, file: Seq<char>)
    requires
        slash_free(folder),
        slash_free(file),
    ensures
        parse_path(seq!['/'] + stage_path(folder, stage, file)) == Some(
            ImagePathView { folder, stage: decimal(stage), file },
        ),
{
    let rel = stage_path(folder, stage, file);
    let abs = seq!['/'] + rel;
    assert(abs.skip(1) =~= rel);
    lemma_decimal_slash_free(stage);
    let tail = decimal(stage) + seq!['/'] + file;
    assert(rel =~= folder + seq!['/'] + tail);
    lemma_segments_cons(folder, tail);
    lemma_segments_cons(decimal(stage), file);
    lemma_segments_single(file);
    assert(segments(rel) =~= seq![folder, decimal(stage), file]);
}

/// Writing a stage into a path that was read, reading the result back and
/// writing the same stage again changes nothing more: the second path is the
/// first. What is read back has the numeral of the stage as its stage, and
/// the folder and file that went in.
pub proof fn lemma_stage_path_settles(path: Seq<char>, stage: nat)
    requires
        parse_path(path) is Some,
    ensures
        ({
            let read = parse_path(path)->0;
            let once = stage_path(read.folder, stage, read.file);
            let again = parse_path(seq!['/'] + once);
            &&& again == Some(
                ImagePathView { folder: read.folder, stage: decimal(stage), file: read.file },
            )
            &&& stage_path(again->0.folder, stage, again->0.file) == once
        }),
{
    lemma_parse_path_slash_free(path);
    let read = parse_path(path)->0;
    lemma_parse_stage_path(read.folder, stage, read.file);
}

/// How the path of a regular image reads: folder `images`, the numeral of the
/// stage, and the numeral of the edition with `.jpg`.
pub proof fn lemma_parse_restored_path(stage: nat, edition: nat)
    ensures
        parse_path(seq!['/'] + restored_path(stage, edition)) == Some(
            ImagePathView {
                folder: "images"@,
                stage: decimal(stage),
                file: decimal(edition) + ".jpg"@,
            },
        ),
{
    reveal_strlit("images/");
    reveal_strlit("images");
    reveal_strlit("/");
    reveal_strlit(".jpg");
    let folder = "images"@;
    let file = decimal(edition) + ".jpg"@;
    lemma_decimal_slash_free(edition);
    assert(slash_free(folder));
    assert(slash_free(file));
    assert(restored_path(stage, edition) =~= stage_path(folder, stage, file));
    lemma_parse_stage_path(folder, stage, file);
}

/// How the path of a faded image reads: the bucket as folder, `4` as stage,
/// and the numeral of the edition with `.jpg`.
pub proof fn lemma_parse_faded_path(bucket: Seq<char>, edition: nat)
    requires
        slash_free(bucket),
    ensures
        parse_path(seq!['/'] + faded_path(bucket, edition)) == Some(
            ImagePathView { folder: bucket, stage: decimal(4), file: decimal(edition) + ".jpg"@ },
        ),
{
    reveal_strlit("/4/");
    reveal_strlit(".jpg");
    let file = decimal(edition) + ".jpg"@;
    lemma_decimal_slash_free(edition);
    assert(slash_free(file));
    assert(decimal(4) =~= seq!['4']);
    assert(faded_path(bucket, edition) =~= stage_path(bucket, 4, file));
    lemma_parse_stage_path(bucket, 4, file);
}

} // verus!
