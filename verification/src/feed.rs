use vstd::prelude::*;
use crate::script::{as_string, spec_as_string, ArgError, JsonValue};
use std::str::FromStr;

verus! {

/// An item of a feed as the RSS reader gives it.
pub struct FeedItem {
    pub title: Option<String>,
    pub description: Option<String>,
    pub pub_date: Option<String>,
    pub link: Option<String>,
}

/// A channel as the RSS reader gives it.
pub struct FeedChannel {
    pub title: String,
    pub description: String,
    pub items: Vec<FeedItem>,
}

/// An item of the feed a script gets: missing texts are empty, and the
/// publication date is `(seconds since the epoch, nanoseconds, offset east of
/// UTC in seconds)`, the epoch at offset zero when the item has none.
pub struct RssFeedItem {
    pub title: String,
    pub description: String,
    pub pub_date: (i64, u32, i32),
    pub link: String,
}

/// The feed a script gets.
pub struct RssFeed {
    pub title: String,
    pub description: String,
    pub items: Vec<RssFeedItem>,
}

/// Why `rss(xml)` failed.
pub enum FeedError {
    /// The argument was refused.
    Argument(ArgError),
    /// The text is not an RSS channel; the reader's message.
    Channel { message: String },
    /// A publication date is not an RFC 2822 date; the parser's message.
    Date { message: String },
}

/// An optional text as plain values.
pub open spec fn opt_view(o: Option<String>) -> Option<Seq<char>> {
    match o {
        Some(s) => Some(s@),
        None => None,
    }
}

/// An item as plain values: title, description, publication date, link.
pub open spec fn item_view(i: FeedItem) -> (Option<Seq<char>>, Option<Seq<char>>, Option<Seq<char>>, Option<Seq<char>>) {
    (opt_view(i.title), opt_view(i.description), opt_view(i.pub_date), opt_view(i.link))
}

/// A channel as plain values: title, description, items.
pub open spec fn channel_view(c: FeedChannel) -> (
    Seq<char>,
    Seq<char>,
    Seq<(Option<Seq<char>>, Option<Seq<char>>, Option<Seq<char>>, Option<Seq<char>>)>,
) {
    (c.title@, c.description@, c.items@.map_values(|i: FeedItem| item_view(i)))
}

/// What `rss::Channel::from_str` reads from a text, as plain values; `None`
/// when it refuses the text.
pub uninterp spec fn rss_channel(xml: Seq<char>) -> Option<
    (
        Seq<char>,
        Seq<char>,
        Seq<(Option<Seq<char>>, Option<Seq<char>>, Option<Seq<char>>, Option<Seq<char>>)>,
    ),
>;

/// What `chrono::DateTime::parse_from_rfc2822` reads from a text, as
/// `(timestamp, nanoseconds, offset in seconds)`; `None` when it refuses it.
pub uninterp spec fn rfc2822(s: Seq<char>) -> Option<(i64, u32, i32)>;

/// `rss::Channel::from_str(xml)`: the channel's title, description and
/// items, or the reader's error message. The channel is the reader's, named by
/// [`rss_channel`]; the message is not stated.
#[verifier::external_body]
fn read_channel(xml: &str) -> (r: Result<FeedChannel, String>)
    ensures
        match r {
            Ok(c) => rss_channel(xml@) == Some(channel_view(c)),
            Err(_) => rss_channel(xml@) is None,
        },
{
    let c = rss::Channel::from_str(xml).map_err(|e| e.to_string())?;
    let item = |i: &rss::Item| FeedItem {
        title: i.title().map(String::from),
        description: i.description().map(String::from),
        pub_date: i.pub_date().map(String::from),
        link: i.link().map(String::from),
    };
    let items = c.items().iter().map(item).collect();
    Ok(FeedChannel { title: c.title().to_string(), description: c.description().to_string(), items })
}

/// `chrono::DateTime::parse_from_rfc2822(s)` as `(timestamp, nanoseconds,
/// offset)`, or the parser's message (not stated).
#[verifier::external_body]
fn parse_rfc2822(s: &str) -> (r: Result<(i64, u32, i32), String>)
    ensures
        match r {
            Ok(d) => rfc2822(s@) == Some(d),
            Err(_) => rfc2822(s@) is None,
        },
{
    match chrono::DateTime::parse_from_rfc2822(s) {
        Ok(d) => Ok((d.timestamp(), d.timestamp_subsec_nanos(), d.offset().local_minus_utc())),
        Err(e) => Err(e.to_string()),
    }
}

/// The text of an optional field, empty when missing.
pub open spec fn or_empty(o: Option<Seq<char>>) -> Seq<char> {
    match o {
        Some(s) => s,
        None => Seq::empty(),
    }
}

/// The item a script gets for a read item, as plain values; `None` when its
/// publication date cannot be read.
pub open spec fn spec_feed_item(
    i: (Option<Seq<char>>, Option<Seq<char>>, Option<Seq<char>>, Option<Seq<char>>),
) -> Option<(Seq<char>, Seq<char>, (i64, u32, i32), Seq<char>)> {
    let date = match i.2 {
        Some(d) => rfc2822(d),
        None => Some((0i64, 0u32, 0i32)),
    };
    match date {
        Some(d) => Some((or_empty(i.0), or_empty(i.1), d, or_empty(i.3))),
        None => None,
    }
}

/// A feed item as plain values.
pub open spec fn rss_item_view(i: RssFeedItem) -> (Seq<char>, Seq<char>, (i64, u32, i32), Seq<char>) {
    (i.title@, i.description@, i.pub_date, i.link@)
}

/// Every one of the first `n` read items gives a feed item.
pub open spec fn items_readable(items: Seq<(Option<Seq<char>>, Option<Seq<char>>, Option<Seq<char>>, Option<Seq<char>>)>, n: int) -> bool {
    forall|k: int| 0 <= k < n ==> (#[trigger] spec_feed_item(items[k])) is Some
}

fn text_or_empty(o: &Option<String>) -> (s: String)
    ensures
        s@ == or_empty(opt_view(*o)),
{
    match o {
        Some(t) => t.clone(),
        None => String::new(),
    }
}

/// The feed item of one read item: missing texts become empty, a missing
/// date the epoch at offset zero, and an unreadable date an error.
pub fn feed_item(item: &FeedItem) -> (r: Result<RssFeedItem, FeedError>)
    ensures
        match spec_feed_item(item_view(*item)) {
            Some(v) => r matches Ok(f) && rss_item_view(f) == v,
            None => r is Err && r->Err_0 is Date,
        },
{
    let pub_date = match &item.pub_date {
        Some(d) => match parse_rfc2822(d.as_str()) {
            Ok(v) => v,
            Err(message) => {
                return Err(FeedError::Date { message });
            },
        },
        None => (0i64, 0u32, 0i32),
    };
    Ok(RssFeedItem {
        title: text_or_empty(&item.title),
        description: text_or_empty(&item.description),
        pub_date,
        link: text_or_empty(&item.link),
    })
}

/// The feed of a read channel: its title, description and every item in
/// order, or the date error of the first item whose date cannot be read.
pub fn feed_of(channel: &FeedChannel) -> (r: Result<RssFeed, FeedError>)
    ensures
        ({
            let items = channel_view(*channel).2;
            if items_readable(items, items.len() as int) {
                &&& r matches Ok(f)
                &&& f.title@ == channel.title@
                &&& f.description@ == channel.description@
                &&& f.items@.len() == items.len()
                &&& forall|k: int| 0 <= k < items.len() ==> Some(rss_item_view(#[trigger] f.items@[k])) == spec_feed_item(items[k])
            } else {
                r is Err && r->Err_0 is Date
            }
        }),
{
    let ghost items = channel_view(*channel).2;
    let mut out: Vec<RssFeedItem> = Vec::new();
    let mut i: usize = 0;
    while i < channel.items.len()
        invariant
            i <= channel.items@.len(),
            items == channel.items@.map_values(|it: FeedItem| item_view(it)),
            out@.len() == i,
            items_readable(items, i as int),
            forall|k: int| 0 <= k < i ==> Some(rss_item_view(#[trigger] out@[k])) == spec_feed_item(items[k]),
        decreases channel.items@.len() - i,
    {
        assert(items[i as int] == item_view(channel.items@[i as int]));
        match feed_item(&channel.items[i]) {
            Ok(f) => {
                out.push(f);
            },
            Err(e) => {
                assert(!items_readable(items, items.len() as int));
                return Err(e);
            },
        }
        i += 1;
    }
    Ok(RssFeed { title: channel.title.clone(), description: channel.description.clone(), items: out })
}

/// `rss(xml)`: the feed read from the first evaluated argument, a string.
pub fn rss_call(evaluated: &Vec<JsonValue>) -> (r: Result<RssFeed, FeedError>)
    requires
        evaluated@.len() >= 1,
    ensures
        spec_as_string(evaluated@[0]) is None ==> r matches Err(FeedError::Argument(ArgError::ExpectedString)),
        spec_as_string(evaluated@[0]) matches Some(xml) ==> match rss_channel(xml) {
            None => r is Err && r->Err_0 is Channel,
            Some(c) => if items_readable(c.2, c.2.len() as int) {
                &&& r matches Ok(f)
                &&& f.title@ == c.0
                &&& f.description@ == c.1
                &&& f.items@.len() == c.2.len()
                &&& forall|k: int| 0 <= k < c.2.len() ==> Some(rss_item_view(#[trigger] f.items@[k])) == spec_feed_item(c.2[k])
            } else {
                r is Err && r->Err_0 is Date
            },
        },
{
    let xml = match as_string(&evaluated[0]) {
        Ok(s) => s,
        Err(e) => {
            return Err(FeedError::Argument(e));
        },
    };
    match read_channel(xml.as_str()) {
        Ok(channel) => feed_of(&channel),
        Err(message) => Err(FeedError::Channel { message }),
    }
}

} // verus!
