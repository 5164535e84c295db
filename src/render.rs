//! Display fragments: one card per item, and the lists of cards that the
//! feed and the saved collection answer with.
use vstd::prelude::*;

use crate::error::EchoError;
use crate::post::{fields, post_of_detail, post_of_saved, HnPost, Post, SavedPosts};
use crate::text::{contains_seq, contains_text, escape, escape_html};

verus! {

/// The five text fields of an item: id, title, author, url, timestamp.
pub type PostFields = (Seq<char>, Seq<char>, Seq<char>, Seq<char>, Seq<char>);

pub const CARD_OPEN: &'static str = "<li hx-boost='true' key='";

pub const CARD_LINK: &'static str = "' class='overflow-hidden bg-secondary rounded-xl border border-gray-200 max-h-44'><a href='";

pub const CARD_TITLE: &'static str = "'><div class='w-full group relative cursor-pointer overflow-hidden bg-secondary px-6 pt-1 shadow-xl ring-1 ring-gray-900/5 transition-all duration-300 hover:-translate-y-1 hover:shadow-2xl sm:mx-auto sm:rounded-lg sm:px-10'><span class='absolute inset-x-0 top-0 h-6 w-full bg-accent transition-all duration-300 group-hover:scale-[100]'></span><div class='relative z-10 mx-auto max-w-md'><div class='space-y-1 pt-5 text-base leading-7 text-gray-600 transition-all duration-300 group-hover:text-white/90'><h3 class='truncate text-xl font-extrabold text-white'>";

pub const CARD_AUTHOR: &'static str = "</h3><p class='mt-1 truncate text-sm text-gray-100'>Author: ";

pub const CARD_FORM: &'static str = "</p></div><form class='save-post-form flex w-full' hx-post='/auth-actions/save' hx-trigger='submit' hx-target='#save-btn-";

pub const CARD_ID_INPUT: &'static str = "' hx-swap='outerHTML' hx-ext='json-enc' hx-indicator='#spinner'><input id='id' name='id' class='invisible hidden' value='";

pub const CARD_TITLE_INPUT: &'static str = "'></input><input id='title' name='title' class='invisible hidden' value='";

pub const CARD_AUTHOR_INPUT: &'static str = "'></input><input id='author' name='author' class='invisible hidden' value='";

pub const CARD_URL_INPUT: &'static str = "'></input><input id='url' name='url' class='invisible hidden' value='";

pub const CARD_TIME_INPUT: &'static str = "'></input><input id='timestamp' name='timestamp' class='invisible hidden' value='";

pub const CARD_BUTTON: &'static str = "'></input><button id='save-btn-";

pub const CARD_CLOSE: &'static str = "' type='submit' class='save-post-btn rounded-md mx-auto my-5 bg-primary px-3.5 py-2.5 text-sm font-semibold text-white shadow-sm hover:bg-white/50 transition-all duration-300 group-hover:bg-secondary'><span id='save-post-text'>Save Post</span><div id='spinner' style='display: none;'><svg aria-hidden='true' role='status' class='inline w-4 h-4 mr-3 text-accent text-center animate-spin' viewBox='0 0 100 101' fill='none' xmlns='http://www.w3.org/2000/svg'><path d='M100 50.5908C100 78.2051 77.6142 100.591 50 100.591C22.3858 100.591 0 78.2051 0 50.5908C0 22.9766 22.3858 0.59082 50 0.59082C77.6142 0.59082 100 22.9766 100 50.5908ZM9.08144 50.5908C9.08144 73.1895 27.4013 91.5094 50 91.5094C72.5987 91.5094 90.9186 73.1895 90.9186 50.5908C90.9186 27.9921 72.5987 9.67226 50 9.67226C27.4013 9.67226 9.08144 27.9921 9.08144 50.5908Z' fill='#E5E7EB'/><path d='M93.9676 39.0409C96.393 38.4038 97.8624 35.9116 97.0079 33.5539C95.2932 28.8227 92.871 24.3692 89.8167 20.348C85.8452 15.1192 80.8826 10.7238 75.2124 7.41289C69.5422 4.10194 63.2754 1.94025 56.7698 1.05124C51.7666 0.367541 46.6976 0.446843 41.7345 1.27873C39.2613 1.69328 37.813 4.19778 38.4501 6.62326C39.0873 9.04874 41.5694 10.4717 44.0505 10.1071C47.8511 9.54855 51.7191 9.52689 55.5402 10.0491C60.8642 10.7766 65.9928 12.5457 70.6331 15.2552C75.2735 17.9648 79.3347 21.5619 82.5849 25.841C84.9175 28.9121 86.7997 32.2913 88.1811 35.8758C89.083 38.2158 91.5421 39.6781 93.9676 39.0409Z' fill='currentColor'/></svg></div></button></form></div></div></a></li>";

/// The card of an item: the markup with each field escaped, a link to the
/// item's url and a form that saves the item.
pub open spec fn card_of(f: PostFields) -> Seq<char> {
    CARD_OPEN@ + escape_html(f.0) + CARD_LINK@ + escape_html(f.3) + CARD_TITLE@ + escape_html(f.1) + CARD_AUTHOR@ + escape_html(f.2) + CARD_FORM@ + escape_html(f.0) + CARD_ID_INPUT@ + escape_html(f.0) + CARD_TITLE_INPUT@ + escape_html(f.1) + CARD_AUTHOR_INPUT@ + escape_html(f.2) + CARD_URL_INPUT@ + escape_html(f.3) + CARD_TIME_INPUT@ + escape_html(f.4) + CARD_BUTTON@ + escape_html(f.0) + CARD_CLOSE@
}

/// Renders one item as a card.
pub fn create_post_html_card(post: &Post) -> (r: String)
    ensures
        r@ == card_of(fields(*post)),
{
    let mut out = CARD_OPEN.to_owned();
    out.append(escape(post.id.as_str()).as_str());
    out.append(CARD_LINK);
    out.append(escape(post.url.as_str()).as_str());
    out.append(CARD_TITLE);
    out.append(escape(post.title.as_str()).as_str());
    out.append(CARD_AUTHOR);
    out.append(escape(post.author.as_str()).as_str());
    out.append(CARD_FORM);
    out.append(escape(post.id.as_str()).as_str());
    out.append(CARD_ID_INPUT);
    out.append(escape(post.id.as_str()).as_str());
    out.append(CARD_TITLE_INPUT);
    out.append(escape(post.title.as_str()).as_str());
    out.append(CARD_AUTHOR_INPUT);
    out.append(escape(post.author.as_str()).as_str());
    out.append(CARD_URL_INPUT);
    out.append(escape(post.url.as_str()).as_str());
    out.append(CARD_TIME_INPUT);
    out.append(escape(post.timestamp.as_str()).as_str());
    out.append(CARD_BUTTON);
    out.append(escape(post.id.as_str()).as_str());
    out.append(CARD_CLOSE);
    out
}

/// The marker of editorial and meta postings, which the feed leaves out.
pub const NOISE_MARKER: &'static str = "HN: ";

/// A title that marks an editorial or meta posting.
pub open spec fn is_noise(title: Seq<char>) -> bool {
    contains_seq(title, NOISE_MARKER@)
}

/// The feed for detail records in rank order: the cards of the records whose
/// title is not noise, in the same order.
pub open spec fn feed_of(details: Seq<HnPost>) -> Seq<char>
    decreases details.len(),
{
    if details.len() == 0 {
        seq![]
    } else {
        let f = post_of_detail(details.last());
        feed_of(details.drop_last()) + if is_noise(f.1) {
            seq![]
        } else {
            card_of(f)
        }
    }
}

/// Turns the detail records, in rank order, into the feed: each becomes an
/// item, noise is dropped and the rest are rendered in rank order.
pub fn assemble_feed(details: Vec<HnPost>) -> (r: String)
    ensures
        r@ == feed_of(details@),
{
    let ghost all = details@;
    let mut rest = details;
    let mut out = String::new();
    while rest.len() > 0
        invariant
            feed_of(all) == feed_of(rest@) + out@,
        decreases rest@.len(),
    {
        let ghost before = rest@;
        let d = rest.pop().unwrap();
        let post = d.into_post();
        let ghost old_out = out@;
        if !contains_text(post.title.as_str(), NOISE_MARKER) {
            let card = create_post_html_card(&post);
            out = card.concat(out.as_str());
        }
        assert(before.drop_last() == rest@);
        assert(feed_of(before) + old_out =~= feed_of(rest@) + out@);
    }
    out
}

/// The feed of two runs of records is the feed of the first followed by the
/// feed of the second.
pub proof fn lemma_feed_concat(a: Seq<HnPost>, b: Seq<HnPost>)
    ensures
        feed_of(a + b) == feed_of(a) + feed_of(b),
    decreases b.len(),
{
    if b.len() == 0 {
        assert(a + b =~= a);
        assert(feed_of(a) + feed_of(b) =~= feed_of(a));
    } else {
        lemma_feed_concat(a, b.drop_last());
        assert((a + b).drop_last() =~= a + b.drop_last());
        assert((a + b).last() == b.last());
        assert(feed_of(a + b) =~= feed_of(a) + feed_of(b));
    }
}

/// The feed of one record: its card, or nothing when its title is noise.
pub proof fn lemma_feed_single(d: HnPost)
    ensures
        feed_of(seq![d]) == if is_noise(post_of_detail(d).1) {
            Seq::<char>::empty()
        } else {
            card_of(post_of_detail(d))
        },
{
    assert(seq![d].drop_last() =~= Seq::<HnPost>::empty());
    assert(feed_of(seq![d]) =~= feed_of(Seq::<HnPost>::empty()) + (if is_noise(post_of_detail(d).1) {
        Seq::<char>::empty()
    } else {
        card_of(post_of_detail(d))
    }));
}

/// A record whose title is noise adds nothing to the feed: the feed is the
/// same as for the records without it.
pub proof fn lemma_feed_skips_noise(details: Seq<HnPost>, i: int)
    requires
        0 <= i < details.len(),
        is_noise(post_of_detail(details[i]).1),
    ensures
        feed_of(details) == feed_of(details.remove(i)),
{
    let pre = details.subrange(0, i);
    let post = details.subrange(i + 1, details.len() as int);
    assert(details =~= pre + seq![details[i]] + post);
    assert(details.remove(i) =~= pre + post);
    lemma_feed_concat(pre + seq![details[i]], post);
    lemma_feed_concat(pre, seq![details[i]]);
    lemma_feed_concat(pre, post);
    lemma_feed_single(details[i]);
    assert(feed_of(pre) + Seq::<char>::empty() =~= feed_of(pre));
}

/// Two records whose titles are not noise have their cards in the feed in
/// rank order: the earlier one's card comes first, with the feed of the
/// records between them in between.
pub proof fn lemma_feed_rank_order(details: Seq<HnPost>, i: int, j: int)
    requires
        0 <= i < j < details.len(),
        !is_noise(post_of_detail(details[i]).1),
        !is_noise(post_of_detail(details[j]).1),
    ensures
        feed_of(details) == feed_of(details.subrange(0, i)) + card_of(post_of_detail(details[i]))
            + feed_of(details.subrange(i + 1, j)) + card_of(post_of_detail(details[j])) + feed_of(
            details.subrange(j + 1, details.len() as int),
        ),
{
    let a = details.subrange(0, i);
    let b = details.subrange(i + 1, j);
    let c = details.subrange(j + 1, details.len() as int);
    let di = seq![details[i]];
    let dj = seq![details[j]];
    assert(details =~= a + di + b + dj + c);
    lemma_feed_concat(a + di + b + dj, c);
    lemma_feed_concat(a + di + b, dj);
    lemma_feed_concat(a + di, b);
    lemma_feed_concat(a, di);
    lemma_feed_single(details[i]);
    lemma_feed_single(details[j]);
}

/// Joins the fetched detail records, in rank order: all of them when every
/// fetch succeeded, else a fetch error for the whole feed.
pub fn collect_details(results: Vec<Option<HnPost>>) -> (r: Result<Vec<HnPost>, EchoError>)
    ensures
        (forall|i: int| 0 <= i < results@.len() ==> #[trigger] results@[i] is Some) ==> (r matches Ok(
            v,
        ) && v@.len() == results@.len() && forall|i: int|
            0 <= i < results@.len() ==> Some(#[trigger] v@[i]) == results@[i]),
        (exists|i: int| 0 <= i < results@.len() && #[trigger] results@[i] is None) ==> r == Err::<
            Vec<HnPost>,
            EchoError,
        >(EchoError::RemoteFetchError),
{
    let ghost all = results@;
    let mut rest = results;
    let mut out: Vec<HnPost> = Vec::new();
    while rest.len() > 0
        invariant
            all == results@,
            rest@.len() + out@.len() == all.len(),
            forall|i: int| 0 <= i < rest@.len() ==> rest@[i] == all[i],
            forall|i: int| 0 <= i < out@.len() ==> Some(#[trigger] out@[i]) == all[rest@.len() + i],
        decreases rest@.len(),
    {
        let ghost k = rest@.len() - 1;
        let item = rest.pop().unwrap();
        assert(item == all[k]);
        match item {
            Some(d) => {
                let ghost before = out@;
                out.insert(0, d);
                assert forall|i: int| 0 <= i < out@.len() implies Some(#[trigger] out@[i]) == all[rest@.len() + i] by {
                    if i > 0 {
                        assert(out@[i] == before[i - 1]);
                    }
                }
            },
            None => {
                assert(!(all[k] is Some));
                return Err(EchoError::RemoteFetchError);
            },
        }
    }
    assert forall|i: int| 0 <= i < all.len() implies #[trigger] all[i] is Some by {
        assert(Some(out@[i]) == all[i]);
    }
    Ok(out)
}

/// The listing of a saved collection: the card of each stored row, in the
/// order the rows came.
pub open spec fn saved_listing_of(rows: Seq<SavedPosts>) -> Seq<char>
    decreases rows.len(),
{
    if rows.len() == 0 {
        seq![]
    } else {
        saved_listing_of(rows.drop_last()) + card_of(post_of_saved(rows.last()))
    }
}

/// Renders the stored rows of a user's collection, in the order given.
pub fn render_saved(rows: Vec<SavedPosts>) -> (r: String)
    ensures
        r@ == saved_listing_of(rows@),
{
    let ghost all = rows@;
    let mut rest = rows;
    let mut out = String::new();
    while rest.len() > 0
        invariant
            saved_listing_of(all) == saved_listing_of(rest@) + out@,
        decreases rest@.len(),
    {
        let ghost before = rest@;
        let row = rest.pop().unwrap();
        let post = row.into_post();
        let card = create_post_html_card(&post);
        let ghost old_out = out@;
        out = card.concat(out.as_str());
        assert(before.drop_last() == rest@);
        assert(saved_listing_of(before) + old_out =~= saved_listing_of(rest@) + out@);
    }
    out
}

} // verus!
