//! Names of the files that pictures are written to.
//!
//! A name is made of a fixed prefix, the local time to the millisecond, a
//! random tag and the extension. Two pictures written within one millisecond
//! differ in their tags.

use vstd::prelude::*;

verus! {

/// The prefix of every picture's name.
pub const IMAGE_PREFIX: &'static str = "EasyPaste";

/// The extension of every picture's name.
pub const IMAGE_EXTENSION: &'static str = "jpg";

/// The pattern by which the local time is written into a name: year, month,
/// day, hour, minute, second and millisecond.
pub const STAMP_PATTERN: &'static str = "%Y-%m-%d_%H-%M-%S-%3f";

/// The number of characters of a random tag.
pub const TAG_LENGTH: usize = 36;

/// The name `<prefix>_<stamp>-<tag>.<extension>`.
pub open spec fn image_file_name(
    prefix: Seq<char>,
    stamp: Seq<char>,
    tag: Seq<char>,
    extension: Seq<char>,
) -> Seq<char> {
    prefix + seq!['_'] + stamp + seq!['-'] + tag + seq!['.'] + extension
}

/// Calls `chrono::Local::now()` and writes the time it answers with by
/// `DelayedFormat::write_to`, under `pattern`. The answer is `None` where
/// chrono rejects the pattern. For `STAMP_PATTERN` there is an answer: chrono
/// knows each of its items, a time of the clock has the date and the time they
/// ask for, and writing into a `String` does not fail. Nothing is claimed of
/// the text: it depends on the clock and on the machine's time zone. chrono
/// panics where the clock stands before 1970.
#[verifier::external_body]
pub(crate) fn local_stamp(pattern: &str) -> (stamp: Option<String>)
    ensures
        pattern@ == STAMP_PATTERN@ ==> stamp is Some,
{
    let mut out = String::new();
    match chrono::Local::now().format(pattern).write_to(&mut out) {
        Ok(()) => Some(out),
        Err(_) => None,
    }
}

/// Calls `uuid::Uuid::new_v4()` and writes the identifier by its `Display`,
/// which is the hyphenated form: 32 hexadecimal digits in five groups, 36
/// characters in all. Which identifier comes is left to chance. uuid panics
/// where the system gives no random bytes.
#[verifier::external_body]
pub(crate) fn fresh_tag() -> (tag: String)
    ensures
        tag@.len() == TAG_LENGTH,
{
    uuid::Uuid::new_v4().to_string()
}

/// Puts a name together from its four parts.
pub fn file_name(prefix: &str, stamp: &str, tag: &str, extension: &str) -> (name: String)
    ensures
        name@ == image_file_name(prefix@, stamp@, tag@, extension@),
{
    let mut name = prefix.to_owned();
    name.append("_");
    name.append(stamp);
    name.append("-");
    name.append(tag);
    name.append(".");
    name.append(extension);
    proof {
        reveal_strlit("_");
        reveal_strlit("-");
        reveal_strlit(".");
        assert("_"@ =~= seq!['_']);
        assert("-"@ =~= seq!['-']);
        assert("."@ =~= seq!['.']);
    }
    name
}

/// The name that follows from what the clock gave: where a time was written,
/// the name made of it and of the other three parts; where none was, no name.
pub open spec fn stamped_name(
    prefix: Seq<char>,
    stamp: Option<Seq<char>>,
    tag: Seq<char>,
    extension: Seq<char>,
) -> Option<Seq<char>> {
    match stamp {
        Some(s) => Some(image_file_name(prefix, s, tag, extension)),
        None => None,
    }
}

/// Makes the name out of the time as it came back from the clock: a name
/// exactly where a time was written, and then the one made of the four parts.
pub fn name_from_stamp(prefix: &str, stamp: Option<String>, tag: &str, extension: &str) -> (name:
    Option<String>)
    ensures
        match stamped_name(
            prefix@,
            match stamp {
                Some(s) => Some(s@),
                None => None,
            },
            tag@,
            extension@,
        ) {
            Some(expected) => name matches Some(n) && n@ == expected,
            None => name is None,
        },
{
    match stamp {
        Some(s) => Some(file_name(prefix, s.as_str(), tag, extension)),
        None => None,
    }
}

/// A name for the picture that is written next: the prefix, the local time of
/// this call, a fresh random tag and the extension. There always is one.
pub fn next_image_name(prefix: &str, extension: &str) -> (name: Option<String>)
    ensures
        name matches Some(n) && exists|stamp: Seq<char>, tag: Seq<char>|
            tag.len() == TAG_LENGTH && n@ == #[trigger] image_file_name(
                prefix@,
                stamp,
                tag,
                extension@,
            ),
{
    let stamp = local_stamp(STAMP_PATTERN);
    let tag = fresh_tag();
    name_from_stamp(prefix, stamp, tag.as_str(), extension)
}

/// Names are told apart by their time and tag: with tags of one length, two
/// names with the same prefix and extension are equal only where both the
/// time and the tag are.
pub proof fn law_names_distinct(
    prefix: Seq<char>,
    extension: Seq<char>,
    stamp_a: Seq<char>,
    tag_a: Seq<char>,
    stamp_b: Seq<char>,
    tag_b: Seq<char>,
)
    requires
        tag_a.len() == tag_b.len(),
        stamp_a != stamp_b || tag_a != tag_b,
    ensures
        image_file_name(prefix, stamp_a, tag_a, extension) != image_file_name(
            prefix,
            stamp_b,
            tag_b,
            extension,
        ),
{
    let a = image_file_name(prefix, stamp_a, tag_a, extension);
    let b = image_file_name(prefix, stamp_b, tag_b, extension);
    if a == b {
        assert(a.len() == b.len());
        assert(stamp_a.len() == stamp_b.len());
        let at_stamp = prefix.len() + 1;
        assert forall|i: int| 0 <= i < stamp_a.len() implies stamp_a[i] == stamp_b[i] by {
            assert(a[at_stamp + i] == stamp_a[i]);
            assert(b[at_stamp + i] == stamp_b[i]);
        }
        assert(stamp_a =~= stamp_b);
        let at_tag = prefix.len() + 1 + stamp_a.len() + 1;
        assert forall|i: int| 0 <= i < tag_a.len() implies tag_a[i] == tag_b[i] by {
            assert(a[at_tag + i] == tag_a[i]);
            assert(b[at_tag + i] == tag_b[i]);
        }
        assert(tag_a =~= tag_b);
    }
}

/// Any number of names are told apart in the same way: of names made with one
/// prefix, one extension and tags of the usual length, no two are equal unless
/// they were made of the same time and the same tag. A hundred pictures
/// written in one millisecond get a hundred names as long as no tag is drawn
/// twice.
pub proof fn law_all_names_distinct(
    prefix: Seq<char>,
    extension: Seq<char>,
    stamps: Seq<Seq<char>>,
    tags: Seq<Seq<char>>,
)
    requires
        stamps.len() == tags.len(),
        forall|i: int| 0 <= i < tags.len() ==> (#[trigger] tags[i]).len() == TAG_LENGTH,
        forall|i: int, j: int|
            #![trigger tags[i], tags[j]]
            0 <= i < j < tags.len() ==> stamps[i] != stamps[j] || tags[i] != tags[j],
    ensures
        forall|i: int, j: int|
            #![trigger tags[i], tags[j]]
            0 <= i < j < tags.len() ==> image_file_name(prefix, stamps[i], tags[i], extension)
                != image_file_name(prefix, stamps[j], tags[j], extension),
{
    assert forall|i: int, j: int|
        #![trigger tags[i], tags[j]]
        0 <= i < j < tags.len() implies image_file_name(prefix, stamps[i], tags[i], extension)
        != image_file_name(prefix, stamps[j], tags[j], extension) by {
        law_names_distinct(prefix, extension, stamps[i], tags[i], stamps[j], tags[j]);
    }
}

} // verus!
