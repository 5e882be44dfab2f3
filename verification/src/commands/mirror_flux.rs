//! Mirroring Flux's own images: which images the Flux install uses, and
//! where each goes in the target registry.
use vstd::prelude::*;
use crate::commands::{push_arg, CommandLine};
use crate::text::{
    append_chars, append_str, chars_of, lines, lines_of, replace_all, replace_chars, slice_of,
    str_views, string_of, strip_bounds, trim, views, CharClass,
};

verus! {

#[verifier::external_type_specification]
#[verifier::external_body]
pub struct ExRegexError(regex::Error);

/// What capture group `group` of the leftmost match of `pattern` in `text`
/// holds, if it takes part in a match.
pub uninterp spec fn spec_regex_capture(pattern: Seq<char>, text: Seq<char>, group: usize) -> Option<Seq<char>>;

/// Whether `regex::Regex::new` accepts a pattern: its syntax is valid and
/// the compiled program fits the default size limit.
pub uninterp spec fn spec_regex_compiles(pattern: Seq<char>) -> bool;

/// `regex::Regex::new(pattern)`, keeping only whether it compiled: `Ok` when
/// the pattern is accepted, else the error it reports.
#[verifier::external_body]
fn check_regex(pattern: &str) -> (r: Result<(), regex::Error>)
    ensures
        r is Ok <==> spec_regex_compiles(pattern@),
{
    match regex::Regex::new(pattern) {
        Ok(_) => Ok(()),
        Err(e) => Err(e),
    }
}

/// `regex::Regex::new(pattern)`, then `captures(text)` and its group
/// `group`. A pattern that compiles gives the named capture; the error of
/// one that does not is passed on. Regular-expression matching is named, not
/// restated.
#[verifier::external_body]
fn regex_capture(pattern: &str, text: &str, group: usize) -> (r: Result<Option<String>, regex::Error>)
    ensures
        r is Ok <==> spec_regex_compiles(pattern@),
        r matches Ok(c) ==> match c {
            Some(s) => spec_regex_capture(pattern@, text@, group) == Some(s@),
            None => spec_regex_capture(pattern@, text@, group) is None,
        },
{
    let re = regex::Regex::new(pattern)?;
    let caps = re.captures(text);
    let found = match &caps {
        Some(c) => c.get(group),
        None => None,
    };
    Ok(match found {
        Some(m) => Some(m.as_str().to_string()),
        None => None,
    })
}

/// The image pattern: what follows `image: ` on a line.
pub const IMAGE_PATTERN: &'static str = "image: (.+)";

/// The values in order of first appearance, each once.
pub open spec fn dedup(s: Seq<Seq<char>>) -> Seq<Seq<char>>
    decreases s.len(),
{
    if s.len() == 0 {
        Seq::<Seq<char>>::empty()
    } else if dedup(s.drop_last()).contains(s.last()) {
        dedup(s.drop_last())
    } else {
        dedup(s.drop_last()).push(s.last())
    }
}

/// The trimmed captures that are present.
pub open spec fn trimmed_captures(caps: Seq<Option<Seq<char>>>) -> Seq<Seq<char>>
    decreases caps.len(),
{
    if caps.len() == 0 {
        Seq::<Seq<char>>::empty()
    } else {
        match caps.last() {
            Some(c) => trimmed_captures(caps.drop_last()).push(trim(c)),
            None => trimmed_captures(caps.drop_last()),
        }
    }
}

pub open spec fn opt_views(v: Seq<Option<String>>) -> Seq<Option<Seq<char>>> {
    v.map_values(|o: Option<String>| match o {
        Some(s) => Some(s@),
        None => None,
    })
}

/// The images named by the per-line captures: trimmed, each once, in order
/// of first appearance.
pub fn collect_images(captures: &Vec<Option<String>>) -> (r: Vec<String>)
    ensures
        str_views(r@) == dedup(trimmed_captures(opt_views(captures@))),
{
    let mut out: Vec<String> = Vec::new();
    let mut i: usize = 0;
    while i < captures.len()
        invariant
            i <= captures.len(),
            str_views(out@) == dedup(trimmed_captures(opt_views(captures@.take(i as int)))),
        decreases captures.len() - i,
    {
        proof {
            let t = opt_views(captures@.take(i + 1));
            assert(t.drop_last() =~= opt_views(captures@.take(i as int)));
            assert(t.last() == match captures@[i as int] {
                Some(s) => Some(s@),
                None => None,
            });
        }
        match &captures[i] {
            Some(c) => {
                let cv = chars_of(c.as_str());
                let (a, b) = strip_bounds(&cv, 0, cv.len(), &CharClass::Space);
                assert(cv@.subrange(0, cv.len() as int) =~= cv@);
                let img = string_of(&slice_of(&cv, a, b));
                let ghost prev = str_views(out@);
                proof {
                    assert(img@ == trim(c@));
                    let before = trimmed_captures(opt_views(captures@.take(i as int)));
                    assert(trimmed_captures(opt_views(captures@.take(i + 1))) == before.push(trim(c@)));
                    assert(before.push(trim(c@)).drop_last() =~= before);
                }
                let mut found = false;
                let mut j: usize = 0;
                while j < out.len()
                    invariant
                        j <= out.len(),
                        prev == str_views(out@),
                        found == exists|k: int| 0 <= k < j && prev[k] == img@,
                    decreases out.len() - j,
                {
                    if out[j] == img {
                        found = true;
                    }
                    proof {
                        assert(prev[j as int] == out@[j as int]@);
                    }
                    j = j + 1;
                }
                proof {
                    assert(found == prev.contains(img@));
                }
                if !found {
                    out.push(img);
                    assert(str_views(out@) =~= prev.push(trim(c@)));
                }
            },
            None => {
                assert(trimmed_captures(opt_views(captures@.take(i + 1))) == trimmed_captures(opt_views(captures@.take(i as int))));
            },
        }
        i = i + 1;
    }
    assert(captures@.take(captures.len() as int) =~= captures@);
    out
}

/// What the image pattern captures on each line of the manifest.
pub open spec fn line_captures(ls: Seq<Seq<char>>) -> Seq<Option<Seq<char>>>
    decreases ls.len(),
{
    if ls.len() == 0 {
        Seq::<Option<Seq<char>>>::empty()
    } else {
        line_captures(ls.drop_last()).push(spec_regex_capture(IMAGE_PATTERN@, ls.last(), 1))
    }
}

/// The images the Flux install manifest uses: for each line, what follows
/// `image: `, trimmed; each once, in order of first appearance. It succeeds
/// exactly when the image pattern compiles; otherwise the pattern's error is
/// returned.
pub fn extract_flux_images(manifest: &str) -> (r: Result<Vec<String>, regex::Error>)
    ensures
        r is Ok <==> spec_regex_compiles(IMAGE_PATTERN@),
        r matches Ok(images) ==> str_views(images@) == dedup(trimmed_captures(line_captures(lines(manifest@)))),
{
    match check_regex(IMAGE_PATTERN) {
        Ok(()) => {},
        Err(e) => return Err(e),
    }
    let ls = lines_of(&chars_of(manifest));
    let mut caps: Vec<Option<String>> = Vec::new();
    let mut i: usize = 0;
    while i < ls.len()
        invariant
            i <= ls.len(),
            spec_regex_compiles(IMAGE_PATTERN@),
            opt_views(caps@) == line_captures(views(ls@).take(i as int)),
        decreases ls.len() - i,
    {
        let line = string_of(&ls[i]);
        let c = match regex_capture(IMAGE_PATTERN, line.as_str(), 1) {
            Ok(c) => c,
            Err(e) => return Err(e),
        };
        let ghost before = opt_views(caps@);
        caps.push(c);
        proof {
            let t = views(ls@).take(i + 1);
            assert(t.drop_last() =~= views(ls@).take(i as int));
            assert(t.last() == ls@[i as int]@);
            assert(opt_views(caps@) =~= before.push(spec_regex_capture(IMAGE_PATTERN@, ls@[i as int]@, 1)));
        }
        i = i + 1;
    }
    assert(views(ls@).take(ls.len() as int) =~= views(ls@));
    Ok(collect_images(&caps))
}

/// The images come out each once.
pub proof fn law_images_listed_once(s: Seq<Seq<char>>)
    ensures
        dedup(s).no_duplicates(),
        dedup(s).to_set() == s.to_set(),
    decreases s.len(),
{
    broadcast use vstd::seq_lib::group_seq_properties;
    if s.len() > 0 {
        law_images_listed_once(s.drop_last());
        assert(s =~= s.drop_last().push(s.last()));
        assert(s.to_set() =~= s.drop_last().to_set().insert(s.last()));
        let d = dedup(s.drop_last());
        if !d.contains(s.last()) {
            assert(d.push(s.last()).to_set() =~= d.to_set().insert(s.last()));
        } else {
            assert(d.to_set().insert(s.last()) =~= d.to_set());
        }
    }
}

/// Where a Flux image goes: under the target registry, without its
/// `ghcr.io/` host.
pub fn flux_mirror_target(source_image: &str, target_registry: &str) -> (t: String)
    ensures
        t@ == target_registry@ + "/"@ + replace_all(source_image@, "ghcr.io/"@, ""@),
{
    proof {
        reveal_strlit("ghcr.io/");
        reveal_strlit("");
    }
    let empty: Vec<char> = Vec::new();
    assert(empty@ =~= ""@);
    let path = replace_chars(&chars_of(source_image), &chars_of("ghcr.io/"), &empty);
    let mut v: Vec<char> = Vec::new();
    append_str(&mut v, target_registry);
    append_str(&mut v, "/");
    append_chars(&mut v, &path);
    string_of(&v)
}

/// How the Flux install manifest is exported to read its images.
pub fn flux_export_command() -> (c: CommandLine)
    ensures
        c.program@ == "flux"@,
        str_views(c.args@) == seq![
            "install"@,
            "--components-extra=image-reflector-controller,image-automation-controller"@,
            "--export"@,
        ],
{
    let mut args: Vec<String> = Vec::new();
    push_arg(&mut args, "install");
    push_arg(&mut args, "--components-extra=image-reflector-controller,image-automation-controller");
    push_arg(&mut args, "--export");
    CommandLine { program: String::from_str("flux"), args }
}

/// How one Flux image is copied, for all platforms.
pub fn flux_image_copy_command(source_image: &str, target_image: &str) -> (c: CommandLine)
    ensures
        c.program@ == "crane"@,
        str_views(c.args@) == seq!["copy"@, "--platform=all"@, source_image@, target_image@],
{
    let mut args: Vec<String> = Vec::new();
    push_arg(&mut args, "copy");
    push_arg(&mut args, "--platform=all");
    push_arg(&mut args, source_image);
    push_arg(&mut args, target_image);
    CommandLine { program: String::from_str("crane"), args }
}

}
