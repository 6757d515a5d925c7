//! What holds of every read.
//!
//! The three steps of a read are put in a row here, as one function of what
//! the reader sent and what the database and the highlighter answered:
//! [`read`]. That this is what the steps compute is proved of [`replay`],
//! which runs them. Of `read`, and of runs of reads one after the other,
//! this module proves what the read path promises: when markup is
//! remembered, that remembered markup is served and kept, and that neither
//! a consumed paste nor a paste read with a password ever reaches the cache.

use crate::cache::RenderCache;
use crate::entry::{lookup_view, DataView, DbError, Entry, EntryView};
use crate::error::Error;
use crate::highlight::{markup_view, HighlightError, Html};
use crate::key::KeyView;
use crate::paste::{Response, ResponseView};
use crate::read::{
    begin, begun, cache_after, finished, outcome_view, paste_page, resolved, Cached, Progress,
    ProgressView, Request, RequestView,
};
use vstd::prelude::*;

verus! {

/// One whole read: the three steps in a row. `found` is the database's
/// answer; `rendered` is what the highlighter answers if the read gets as
/// far as asking it. The result is how the read ends and what it leaves in
/// the cache.
pub open spec fn read(
    request: RequestView,
    found: Result<EntryView, DbError>,
    rendered: Result<Seq<char>, HighlightError>,
    cache: Cached,
) -> (Result<ResponseView, Error>, Cached) {
    match begun(request) {
        Ok(lookup) => match resolved(lookup, found, cache) {
            ProgressView::Done(outcome) => (outcome, cache),
            ProgressView::Render(rendering) => (
                finished(rendering, rendered),
                cache_after(rendering, rendered, cache),
            ),
        },
        Err(e) => (Err(e), cache),
    }
}

/// Runs a read from its first step to its last on answers that are already
/// at hand, as a test or a simulation has them. `rendered` is used only if
/// the read gets as far as the highlighter.
pub fn replay(
    request: Request,
    found: Result<Entry, DbError>,
    rendered: Result<Html, HighlightError>,
    cache: &mut RenderCache,
) -> (outcome: Result<Response, Error>)
    ensures
        (outcome_view(outcome), final(cache)@) == read(
            request@,
            lookup_view(found),
            markup_view(rendered),
            old(cache)@,
        ),
{
    let lookup = match begin(request) {
        Ok(lookup) => lookup,
        Err(e) => {
            return Err(e);
        },
    };
    match lookup.resolve(found, cache) {
        Progress::Done(outcome) => outcome,
        Progress::Render(rendering) => rendering.finish(rendered, cache),
    }
}

/// The first rendering of a paste that can be read again, read without a
/// password, is shown to the reader and goes into the cache under the key
/// that was read.
pub proof fn lemma_first_rendering_is_remembered(
    request: RequestView,
    data: DataView,
    html: Seq<char>,
    cache: Cached,
)
    requires
        begun(request) is Ok,
        request.form is None,
        !cache.contains_key(begun(request).unwrap().key),
    ensures
        ({
            let lookup = begun(request).unwrap();
            let (outcome, after) = read(request, Ok(EntryView::Regular(data)), Ok(html), cache);
            &&& outcome == Ok::<ResponseView, Error>(
                ResponseView::Paste(paste_page(lookup, data, true, html)),
            )
            &&& after == cache.insert(lookup.key, html)
            &&& after.contains_key(lookup.key)
            &&& after[lookup.key] == html
        }),
{
}

/// Once the markup of a key is in the cache, a read of that key without a
/// password, of a paste that can be read again, shows exactly that markup.
/// It does so before the highlighter is asked, and leaves the cache as it
/// was.
pub proof fn lemma_remembered_rendering_is_reused(
    request: RequestView,
    data: DataView,
    rendered: Result<Seq<char>, HighlightError>,
    cache: Cached,
)
    requires
        begun(request) is Ok,
        request.form is None,
        cache.contains_key(begun(request).unwrap().key),
    ensures
        ({
            let lookup = begun(request).unwrap();
            let shown = Ok::<ResponseView, Error>(
                ResponseView::Paste(paste_page(lookup, data, true, cache[lookup.key])),
            );
            &&& resolved(lookup, Ok(EntryView::Regular(data)), cache) == ProgressView::Done(shown)
            &&& read(request, Ok(EntryView::Regular(data)), rendered, cache) == (shown, cache)
        }),
{
}

/// No read removes markup from the cache, and none replaces markup that is
/// there. So what one read has put there, every later read finds.
pub proof fn lemma_read_keeps_what_is_remembered(
    request: RequestView,
    found: Result<EntryView, DbError>,
    rendered: Result<Seq<char>, HighlightError>,
    cache: Cached,
    key: KeyView,
)
    requires
        cache.contains_key(key),
    ensures
        read(request, found, rendered, cache).1.contains_key(key),
        read(request, found, rendered, cache).1[key] == cache[key],
{
}

/// A read that consumes a paste leaves the cache as it was, whatever the
/// highlighter answers, and does not depend on what the cache holds.
pub proof fn lemma_burned_is_never_remembered(
    request: RequestView,
    data: DataView,
    rendered: Result<Seq<char>, HighlightError>,
    cache: Cached,
    other: Cached,
)
    ensures
        read(request, Ok(EntryView::Burned(data)), rendered, cache).1 == cache,
        read(request, Ok(EntryView::Burned(data)), rendered, cache).0 == read(
            request,
            Ok(EntryView::Burned(data)),
            rendered,
            other,
        ).0,
{
}

/// A read with a password leaves the cache as it was, whatever the database
/// and the highlighter answer, and does not depend on what the cache holds.
pub proof fn lemma_password_bypasses_cache(
    request: RequestView,
    found: Result<EntryView, DbError>,
    rendered: Result<Seq<char>, HighlightError>,
    cache: Cached,
    other: Cached,
)
    requires
        request.form is Some,
    ensures
        read(request, found, rendered, cache).1 == cache,
        read(request, found, rendered, cache).0 == read(request, found, rendered, other).0,
{
}

/// A read of an expired paste ends as a read of a paste that never was,
/// with nothing changed. A second such read ends as the first did.
pub proof fn lemma_expired_reads_as_not_found(
    request: RequestView,
    rendered: Result<Seq<char>, HighlightError>,
    again: Result<Seq<char>, HighlightError>,
    cache: Cached,
)
    ensures
        ({
            let first = read(request, Ok(EntryView::Expired), rendered, cache);
            let second = read(request, Ok(EntryView::Expired), again, first.1);
            &&& first == read(request, Err(DbError::NotFound), rendered, cache)
            &&& first.1 == cache
            &&& first.0 is Err
            &&& first.0->Err_0.is_not_found_class()
            &&& begun(request) is Ok ==> first.0 == Err::<ResponseView, Error>(Error::NotFound)
            &&& second == first
        }),
{
}

/// The only read that adds a key to the cache is one of that very key,
/// without a password, of a paste that can be read again, that the
/// highlighter rendered. What it adds is that rendering.
pub proof fn lemma_what_fills_the_cache(
    request: RequestView,
    found: Result<EntryView, DbError>,
    rendered: Result<Seq<char>, HighlightError>,
    cache: Cached,
    key: KeyView,
)
    requires
        !cache.contains_key(key),
        read(request, found, rendered, cache).1.contains_key(key),
    ensures
        begun(request) is Ok,
        begun(request).unwrap().key == key,
        request.form is None,
        found is Ok,
        found.unwrap() is Regular,
        rendered is Ok,
        read(request, found, rendered, cache).1[key] == rendered.unwrap(),
{
}

/// One read as the world answers it: the request, the database's answer,
/// and the highlighter's answer if it is asked.
pub struct Answered {
    pub request: RequestView,
    pub found: Result<EntryView, DbError>,
    pub rendered: Result<Seq<char>, HighlightError>,
}

/// What a run of reads, one after the other, leaves in the cache.
pub open spec fn cache_after_reads(cache: Cached, reads: Seq<Answered>) -> Cached
    decreases reads.len(),
{
    if reads.len() == 0 {
        cache
    } else {
        let last = reads.last();
        read(
            last.request,
            last.found,
            last.rendered,
            cache_after_reads(cache, reads.drop_last()),
        ).1
    }
}

/// Whether a read could fill the cache under `key`: it reads that key
/// without a password and finds a paste that can be read again.
pub open spec fn fills(answered: Answered, key: KeyView) -> bool {
    &&& begun(answered.request) is Ok
    &&& begun(answered.request).unwrap().key == key
    &&& answered.request.form is None
    &&& answered.found is Ok
    &&& answered.found.unwrap() is Regular
}

/// Markup that is in the cache stays there, unchanged, through every run of
/// reads.
pub proof fn lemma_remembered_through_every_read(cache: Cached, reads: Seq<Answered>, key: KeyView)
    requires
        cache.contains_key(key),
    ensures
        cache_after_reads(cache, reads).contains_key(key),
        cache_after_reads(cache, reads)[key] == cache[key],
    decreases reads.len(),
{
    if reads.len() > 0 {
        lemma_remembered_through_every_read(cache, reads.drop_last(), key);
        let last = reads.last();
        lemma_read_keeps_what_is_remembered(
            last.request,
            last.found,
            last.rendered,
            cache_after_reads(cache, reads.drop_last()),
            key,
        );
    }
}

/// A key stays out of the cache through every run of reads of which none
/// could fill it: so the key of a paste that is consumed on reading, or
/// read only with a password, or never found, is never in the cache.
pub proof fn lemma_never_filled(cache: Cached, reads: Seq<Answered>, key: KeyView)
    requires
        !cache.contains_key(key),
        forall|i: int| 0 <= i < reads.len() ==> !fills(#[trigger] reads[i], key),
    ensures
        !cache_after_reads(cache, reads).contains_key(key),
    decreases reads.len(),
{
    if reads.len() > 0 {
        let earlier = reads.drop_last();
        lemma_never_filled(cache, earlier, key);
        let last = reads.last();
        if cache_after_reads(cache, reads).contains_key(key) {
            lemma_what_fills_the_cache(
                last.request,
                last.found,
                last.rendered,
                cache_after_reads(cache, earlier),
                key,
            );
        }
    }
}

/// A paste that can be read again is rendered once. After the first read
/// without a password has rendered it, and whatever reads come between,
/// every read of the same key without a password shows that first
/// rendering, and ends before the highlighter is asked.
pub proof fn lemma_rendered_once(
    first: RequestView,
    data: DataView,
    html: Seq<char>,
    cache: Cached,
    between: Seq<Answered>,
    later: RequestView,
    data_later: DataView,
)
    requires
        begun(first) is Ok,
        first.form is None,
        !cache.contains_key(begun(first).unwrap().key),
        begun(later) is Ok,
        later.form is None,
        begun(later).unwrap().key == begun(first).unwrap().key,
    ensures
        ({
            let filled = read(first, Ok(EntryView::Regular(data)), Ok(html), cache).1;
            let lookup = begun(later).unwrap();
            resolved(
                lookup,
                Ok(EntryView::Regular(data_later)),
                cache_after_reads(filled, between),
            ) == ProgressView::Done(
                Ok(ResponseView::Paste(paste_page(lookup, data_later, true, html))),
            )
        }),
{
    lemma_first_rendering_is_remembered(first, data, html, cache);
    let filled = read(first, Ok(EntryView::Regular(data)), Ok(html), cache).1;
    lemma_remembered_through_every_read(filled, between, begun(first).unwrap().key);
}

/// Whether a paste is there is for the database alone to say. Where it
/// answers with anything but content, the read ends as that answer says,
/// whatever the cache holds, and leaves the cache as it was.
pub proof fn lemma_database_decides(
    request: RequestView,
    found: Result<EntryView, DbError>,
    rendered: Result<Seq<char>, HighlightError>,
    cache: Cached,
    other: Cached,
)
    requires
        found is Err || found.unwrap() is Expired,
    ensures
        read(request, found, rendered, cache).1 == cache,
        read(request, found, rendered, cache).0 == read(request, found, rendered, other).0,
        read(request, found, rendered, cache).0 !is Ok || read(
            request,
            found,
            rendered,
            cache,
        ).0.unwrap() is PasswordInput,
{
}

/// A read keeps no password. Which password was typed shows neither in
/// what the reader is shown nor in what the cache holds afterwards: only
/// whether one was typed matters.
pub proof fn lemma_password_is_not_kept(
    request: RequestView,
    typed: Seq<char>,
    found: Result<EntryView, DbError>,
    rendered: Result<Seq<char>, HighlightError>,
    cache: Cached,
)
    requires
        request.form is Some,
    ensures
        read(request, found, rendered, cache) == read(
            RequestView { form: Some(typed), ..request },
            found,
            rendered,
            cache,
        ),
{
}

} // verus!
