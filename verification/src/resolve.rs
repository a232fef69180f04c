//! Destination resolution for links and images in the event stream,
//! before rendering. An inline link whose destination is not an absolute
//! URL is rewritten to an application-internal `/?path=` reference using
//! the pure path algebra; an inline image whose destination is not an
//! absolute URL becomes a self-contained data URL built from prefetched
//! file bytes, or the SVG error placeholder when the file could not be
//! read. Resolution never fails: a destination it cannot improve is left
//! as it is.

use vstd::prelude::*;

use crate::dataurl::file_data_url;
use crate::dataurl::generate_message_data_url;
use crate::dataurl::mime_or_plain_of;
use crate::dataurl::spec_data_url;
use crate::dataurl::spec_message_data_url;
use crate::events::LocatedEvent;
use crate::events::MdEvent;
use crate::events::MdLinkType;
use crate::events::MdTag;
use crate::paths::get_relative_path_under_cwd;
use crate::paths::is_child_path;
use crate::paths::join_and_canonicalize;
use crate::paths::parent_dir;
use crate::paths::path_is_abs;
use crate::paths::resolve_image_path;
use crate::paths::spec_is_child_path;
use crate::paths::spec_join_canonical;
use crate::paths::spec_resolve_image;
use crate::paths::spec_truncate_cwd;
use crate::paths::is_abs;

verus! {

/// Whether the string parses as an absolute URL (one with a scheme).
pub uninterp spec fn is_url(s: Seq<char>) -> bool;

/// Relies on `url::Url::parse`: whether the destination parses as an
/// absolute URL; a pure function of the string alone.
#[verifier::external_body]
fn parses_as_url(s: &str) -> (b: bool)
    ensures
        b == is_url(s@),
{
    url::Url::parse(s).is_ok()
}

/// The bytes prefetched for one image path: `None` when the read failed.
pub struct ImageEntry {
    pub path: String,
    pub data: Option<Vec<u8>>,
}

/// The bytes the store holds for a path: those of the first entry naming
/// it, and `None` when that entry's read failed or no entry names it.
pub open spec fn spec_lookup_data(entries: Seq<ImageEntry>, key: Seq<char>) -> Option<Seq<u8>>
    decreases entries.len(),
{
    if entries.len() == 0 {
        Option::None
    } else if entries[0].path@ == key {
        match entries[0].data {
            Option::Some(d) => Option::Some(d@),
            Option::None => Option::None,
        }
    } else {
        spec_lookup_data(entries.drop_first(), key)
    }
}

/// Where a rewritten link points: the destination unchanged if it is an
/// absolute URL; otherwise an application-internal `/?path=` reference to
/// the destination joined to the document's directory and normalized,
/// rewritten relative to the working directory when it falls under it.
pub open spec fn spec_resolve_link(dest: Seq<char>, base_path: Seq<char>, cwd: Seq<char>) -> Seq<
    char,
> {
    if is_url(dest) {
        dest
    } else {
        let joined = if !is_abs(dest) {
            match spec_join_canonical(dest, base_path) {
                Option::Some(p) => p,
                Option::None => dest,
            }
        } else {
            dest
        };
        let shown = if spec_is_child_path(cwd, joined) {
            match spec_truncate_cwd(joined, cwd) {
                Option::Some(q) => q,
                Option::None => joined,
            }
        } else {
            joined
        };
        "/?path="@ + shown
    }
}

/// What an image destination becomes: itself if it is an absolute URL;
/// otherwise a data URL of the prefetched bytes for the destination
/// resolved against the document's directory, or the SVG disk-error
/// placeholder when no bytes could be read.
pub open spec fn spec_resolve_image_dest(
    dest: Seq<char>,
    base_dir: Seq<char>,
    store: Seq<ImageEntry>,
) -> Seq<char> {
    if is_url(dest) {
        dest
    } else {
        let resolved = spec_resolve_image(dest, base_dir);
        match spec_lookup_data(store, resolved) {
            Option::Some(bytes) => spec_data_url(bytes, mime_or_plain_of(resolved)),
            Option::None => spec_message_data_url("Disk error."@, "red"@),
        }
    }
}

/// Rewrites one link destination.
pub fn resolve_link_dest(dest: &str, base_path: &str, cwd: &str) -> (r: String)
    ensures
        r@ == spec_resolve_link(dest@, base_path@, cwd@),
{
    if parses_as_url(dest) {
        return String::from_str(dest);
    }
    let joined = if !path_is_abs(dest) {
        match join_and_canonicalize(dest, base_path) {
            Ok(p) => p,
            Err(_) => String::from_str(dest),
        }
    } else {
        String::from_str(dest)
    };
    let shown = if is_child_path(cwd, joined.as_str()) {
        match crate::paths::truncate_cwd(joined.as_str(), cwd) {
            Some(q) => q,
            None => joined,
        }
    } else {
        joined
    };
    let mut r = String::from_str("/?path=");
    r.append(shown.as_str());
    r
}

/// Looks a path up in the prefetched image store.
fn lookup_image<'a>(store: &'a Vec<ImageEntry>, key: &String) -> (r: Option<&'a Vec<u8>>)
    ensures
        match r {
            Option::Some(d) => spec_lookup_data(store@, key@) == Option::Some(d@),
            Option::None => spec_lookup_data(store@, key@) is None,
        },
{
    let n = store.len();
    let mut i: usize = 0;
    proof {
        assert(store@.skip(0) =~= store@);
    }
    while i < n
        invariant
            i <= n,
            n == store@.len(),
            spec_lookup_data(store@.skip(i as int), key@) == spec_lookup_data(store@, key@),
        decreases n - i,
    {
        proof {
            assert(store@.skip(i as int)[0] == store@[i as int]);
            assert(store@.skip(i as int).drop_first() =~= store@.skip(i + 1));
        }
        if store[i].path.eq(key) {
            match &store[i].data {
                Some(d) => {
                    return Some(d);
                },
                None => {
                    return None;
                },
            }
        }
        i = i + 1;
    }
    proof {
        assert(store@.skip(n as int) =~= Seq::<ImageEntry>::empty());
    }
    None
}

/// Rewrites one image destination.
pub fn resolve_image_dest(dest: &str, base_dir: &str, store: &Vec<ImageEntry>) -> (r: String)
    ensures
        r@ == spec_resolve_image_dest(dest@, base_dir@, store@),
{
    if parses_as_url(dest) {
        return String::from_str(dest);
    }
    let resolved = resolve_image_path(dest, base_dir);
    match lookup_image(store, &resolved) {
        Some(bytes) => file_data_url(resolved.as_str(), bytes),
        None => generate_message_data_url("Disk error.", "red"),
    }
}

/// The file paths the content's inline images resolve to, in stream
/// order: one for each inline image whose destination is not an absolute
/// URL, resolved against `base_dir`.
pub open spec fn spec_image_refs(events: Seq<LocatedEvent>, i: int, base_dir: Seq<char>) -> Seq<
    Seq<char>,
>
    decreases events.len() - i,
{
    if i < 0 || i >= events.len() {
        Seq::empty()
    } else {
        let rest = spec_image_refs(events, i + 1, base_dir);
        match events[i].event {
            MdEvent::Start(MdTag::Image { link_type, dest, title }) => {
                if link_type == MdLinkType::Inline && !is_url(dest@) {
                    seq![spec_resolve_image(dest@, base_dir)] + rest
                } else {
                    rest
                }
            },
            _ => rest,
        }
    }
}

/// The file paths the event stream's inline images need read, resolved
/// against the parent directory of the document, in stream order. The
/// caller reads each and hands the outcomes back as the image store.
pub fn collect_image_refs(events: &Vec<LocatedEvent>, base_path: &str) -> (refs: Vec<String>)
    ensures
        crate::paths::views_of(refs@) == spec_image_refs(
            events@,
            0,
            crate::paths::spec_parent_dir(base_path@),
        ),
{
    let base_dir = parent_dir(base_path);
    let ghost bd = base_dir@;
    let n = events.len();
    let mut refs: Vec<String> = Vec::new();
    let mut i: usize = 0;
    proof {
        assert(crate::paths::views_of(refs@) + spec_image_refs(events@, 0, bd) =~= spec_image_refs(
            events@,
            0,
            bd,
        ));
    }
    while i < n
        invariant
            i <= n,
            n == events@.len(),
            bd == crate::paths::spec_parent_dir(base_path@),
            bd == base_dir@,
            spec_image_refs(events@, 0, bd) == crate::paths::views_of(refs@) + spec_image_refs(
                events@,
                i as int,
                bd,
            ),
        decreases n - i,
    {
        let ghost old_refs = crate::paths::views_of(refs@);
        let ghost rest = spec_image_refs(events@, i + 1, bd);
        let mut pushed = false;
        match &events[i].event {
            MdEvent::Start(MdTag::Image { link_type, dest, title }) => {
                if *link_type == MdLinkType::Inline && !parses_as_url(dest.as_str()) {
                    refs.push(resolve_image_path(dest.as_str(), base_dir.as_str()));
                    pushed = true;
                    proof {
                        assert(crate::paths::views_of(refs@) =~= old_refs.push(
                            refs@.last()@,
                        ));
                        assert(old_refs + (seq![refs@.last()@] + rest) =~= old_refs.push(
                            refs@.last()@,
                        ) + rest);
                    }
                }
            },
            _ => {},
        }
        proof {
            if !pushed {
                assert(spec_image_refs(events@, i as int, bd) == rest);
            }
        }
        i = i + 1;
    }
    refs
}

/// How a resolved event relates to the one it came from: an inline link's
/// destination is rewritten by `spec_resolve_link`, an inline image's by
/// `spec_resolve_image_dest` against the parent directory of the document;
/// its line, offset, title and link type are kept; every other event is
/// unchanged.
pub open spec fn event_resolved(
    orig: LocatedEvent,
    res: LocatedEvent,
    base_path: Seq<char>,
    cwd: Seq<char>,
    store: Seq<ImageEntry>,
) -> bool {
    match orig.event {
        MdEvent::Start(MdTag::Link { link_type, dest, title }) => {
            if link_type == MdLinkType::Inline {
                match res.event {
                    MdEvent::Start(MdTag::Link { link_type: lt2, dest: d2, title: t2 }) => {
                        &&& lt2 == MdLinkType::Inline
                        &&& t2 == title
                        &&& d2@ == spec_resolve_link(dest@, base_path, cwd)
                        &&& res.line == orig.line
                        &&& res.offset == orig.offset
                    },
                    _ => false,
                }
            } else {
                res == orig
            }
        },
        MdEvent::Start(MdTag::Image { link_type, dest, title }) => {
            if link_type == MdLinkType::Inline {
                match res.event {
                    MdEvent::Start(MdTag::Image { link_type: lt2, dest: d2, title: t2 }) => {
                        &&& lt2 == MdLinkType::Inline
                        &&& t2 == title
                        &&& d2@ == spec_resolve_image_dest(
                            dest@,
                            crate::paths::spec_parent_dir(base_path),
                            store,
                        )
                        &&& res.line == orig.line
                        &&& res.offset == orig.offset
                    },
                    _ => false,
                }
            } else {
                res == orig
            }
        },
        _ => res == orig,
    }
}

/// Rewrites every inline link and image destination in the event stream,
/// leaving every other event untouched. Never fails: a destination that
/// cannot be resolved is left as it is, and a missing image becomes the
/// SVG error placeholder.
pub fn resolve_events(
    events: Vec<LocatedEvent>,
    base_path: &str,
    cwd: &str,
    store: &Vec<ImageEntry>,
) -> (out: Vec<LocatedEvent>)
    ensures
        out@.len() == events@.len(),
        forall|i: int|
            0 <= i < events@.len() ==> event_resolved(
                events@[i],
                #[trigger] out@[i],
                base_path@,
                cwd@,
                store@,
            ),
{
    let ghost orig = events@;
    let base_dir = parent_dir(base_path);
    let mut rest = events;
    let mut out: Vec<LocatedEvent> = Vec::new();
    proof {
        assert(rest@ =~= orig.skip(0));
    }
    while rest.len() > 0
        invariant
            out@.len() + rest@.len() == orig.len(),
            rest@ == orig.skip(out@.len() as int),
            base_dir@ == crate::paths::spec_parent_dir(base_path@),
            forall|j: int|
                0 <= j < out@.len() ==> event_resolved(
                    orig[j],
                    #[trigger] out@[j],
                    base_path@,
                    cwd@,
                    store@,
                ),
        decreases rest@.len(),
    {
        let ghost k = out@.len() as int;
        proof {
            assert(orig.skip(k)[0] == orig[k]);
        }
        let ev = rest.remove(0);
        proof {
            assert(rest@ =~= orig.skip(k + 1));
        }
        let LocatedEvent { event, offset, line } = ev;
        let resolved: LocatedEvent = match event {
            MdEvent::Start(MdTag::Link { link_type, dest, title }) => {
                if link_type == MdLinkType::Inline {
                    let d2 = resolve_link_dest(dest.as_str(), base_path, cwd);
                    LocatedEvent {
                        event: MdEvent::Start(
                            MdTag::Link { link_type: MdLinkType::Inline, dest: d2, title },
                        ),
                        offset,
                        line,
                    }
                } else {
                    LocatedEvent {
                        event: MdEvent::Start(MdTag::Link { link_type, dest, title }),
                        offset,
                        line,
                    }
                }
            },
            MdEvent::Start(MdTag::Image { link_type, dest, title }) => {
                if link_type == MdLinkType::Inline {
                    let d2 = resolve_image_dest(dest.as_str(), base_dir.as_str(), store);
                    LocatedEvent {
                        event: MdEvent::Start(
                            MdTag::Image { link_type: MdLinkType::Inline, dest: d2, title },
                        ),
                        offset,
                        line,
                    }
                } else {
                    LocatedEvent {
                        event: MdEvent::Start(MdTag::Image { link_type, dest, title }),
                        offset,
                        line,
                    }
                }
            },
            other => LocatedEvent { event: other, offset, line },
        };
        out.push(resolved);
    }
    proof {
        assert(out@.len() == orig.len());
    }
    out
}

} // verus!
