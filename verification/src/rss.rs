//! Decoding of feed documents into announcements.
//!
//! A feed is a document with a channel that lists items; every field of an
//! item is optional. An item with a download address becomes an
//! announcement, with a fingerprint taken from the item as it arrived.

use vstd::prelude::*;
use std::collections::hash_map::DefaultHasher;
use std::hash::{Hash, Hasher};
use vstd::string::StringExecFns;
use crate::text::{
    clone_texts, decimal, list_contains, lowercase_of, split_on, split_spaces, str_to_lowercase,
    texts, u64_to_decimal,
};
use crate::yaml::{TorrentMatch, TorrentMatchView};
use crate::Error;

verus! {

/// The torrent block of an item.
#[derive(Debug, Hash)]
pub struct Torrent {
    pub file_name: Option<String>,
    pub info_hash: Option<String>,
    pub content_length: Option<u64>,
}

/// The enclosure of an item.
#[derive(Debug, Hash)]
pub struct Enclosure {
    pub url: Option<String>,
}

/// One item of a feed, as it arrived.
#[derive(Debug, Hash)]
pub struct Item {
    pub title: Option<String>,
    pub link: Option<String>,
    pub tags: Option<String>,
    pub torrent: Option<Torrent>,
    pub enclosure: Option<Enclosure>,
}

/// The channel of a feed document.
#[derive(Debug)]
pub struct Channel {
    pub title: Option<String>,
    pub description: Option<String>,
    pub item: Option<Vec<Item>>,
}

/// A feed document.
#[derive(Debug)]
pub struct Document {
    pub channel: Option<Channel>,
}

/// The characters of an optional text.
pub open spec fn text_view(o: Option<String>) -> Option<Seq<char>> {
    match o {
        Some(s) => Some(s@),
        None => None,
    }
}

/// The mathematical form of a torrent block.
pub struct TorrentView {
    pub file_name: Option<Seq<char>>,
    pub info_hash: Option<Seq<char>>,
    pub content_length: Option<u64>,
}

/// The mathematical form of an enclosure.
pub struct EnclosureView {
    pub url: Option<Seq<char>>,
}

/// The mathematical form of an item.
pub struct ItemView {
    pub title: Option<Seq<char>>,
    pub link: Option<Seq<char>>,
    pub tags: Option<Seq<char>>,
    pub torrent: Option<TorrentView>,
    pub enclosure: Option<EnclosureView>,
}

/// The mathematical form of an announcement.
pub struct AnnouncementView {
    pub title: Seq<char>,
    pub tags: Set<Seq<char>>,
    pub download_link: Seq<char>,
    pub size: Option<u64>,
    pub item_hash: u64,
}

/// The mathematical form of an announcement bound to the rule that
/// accepted it.
pub struct BoundView {
    pub announcement: AnnouncementView,
    pub rule: TorrentMatchView,
}

impl View for Torrent {
    type V = TorrentView;

    open spec fn view(&self) -> TorrentView {
        TorrentView {
            file_name: text_view(self.file_name),
            info_hash: text_view(self.info_hash),
            content_length: self.content_length,
        }
    }
}

impl View for Enclosure {
    type V = EnclosureView;

    open spec fn view(&self) -> EnclosureView {
        EnclosureView { url: text_view(self.url) }
    }
}

impl View for Item {
    type V = ItemView;

    open spec fn view(&self) -> ItemView {
        ItemView {
            title: text_view(self.title),
            link: text_view(self.link),
            tags: text_view(self.tags),
            torrent: match self.torrent {
                Some(t) => Some(t@),
                None => None,
            },
            enclosure: match self.enclosure {
                Some(e) => Some(e@),
                None => None,
            },
        }
    }
}

/// The 64-bit fingerprint of an item: what std's `DefaultHasher`, freshly
/// made, returns after the item's fields were fed to it in order. Within one
/// build of the program it depends on the fields alone.
pub uninterp spec fn fingerprint_of(item: ItemView) -> u64;

/// The tags of a raw tag text: its pieces between spaces, in lower case.
pub open spec fn tags_of(raw: Seq<char>) -> Set<Seq<char>> {
    Set::new(
        |t: Seq<char>|
            exists|k: int|
                0 <= k < split_on(raw, ' ').len() && t == lowercase_of(
                    #[trigger] split_on(raw, ' ')[k],
                ),
    )
}

impl ItemView {
    /// The address to download from: the enclosure's if it has one, else
    /// the item's link.
    pub open spec fn download_url(self) -> Option<Seq<char>> {
        match self.enclosure {
            Some(EnclosureView { url: Some(u) }) => Some(u),
            _ => self.link,
        }
    }

    /// The title in lower case; an absent title is the empty text.
    pub open spec fn lowered_title(self) -> Seq<char> {
        match self.title {
            Some(t) => lowercase_of(t),
            None => Seq::empty(),
        }
    }

    /// The tag set; absent tags are the empty set.
    pub open spec fn tag_set(self) -> Set<Seq<char>> {
        match self.tags {
            Some(raw) => tags_of(raw),
            None => Set::empty(),
        }
    }

    /// The content length of the torrent block, if there is one.
    pub open spec fn size(self) -> Option<u64> {
        match self.torrent {
            Some(t) => t.content_length,
            None => None,
        }
    }

    /// The announcement that an item with a download address decodes to.
    pub open spec fn announcement(self) -> AnnouncementView
        recommends
            self.download_url() is Some,
    {
        AnnouncementView {
            title: self.lowered_title(),
            tags: self.tag_set(),
            download_link: self.download_url().unwrap(),
            size: self.size(),
            item_hash: fingerprint_of(self),
        }
    }
}

/// The mathematical forms of a list of items.
pub open spec fn item_views(items: Seq<Item>) -> Seq<ItemView> {
    Seq::new(items.len(), |i: int| items[i]@)
}

/// The announcements of a list of items, in order: one for each item that
/// has a download address.
pub open spec fn announcements(items: Seq<ItemView>) -> Seq<AnnouncementView>
    decreases items.len(),
{
    if items.len() == 0 {
        Seq::empty()
    } else {
        let front = announcements(items.drop_last());
        if items.last().download_url() is Some {
            front.push(items.last().announcement())
        } else {
            front
        }
    }
}

impl Document {
    /// The items of the document, where it has a channel with an item list.
    pub open spec fn items(self) -> Option<Seq<ItemView>> {
        match self.channel {
            Some(channel) => match channel.item {
                Some(items) => Some(item_views(items@)),
                None => None,
            },
            None => None,
        }
    }
}

/// Feeds the item to a new `DefaultHasher` through the item's derived `Hash`
/// and returns `Hasher::finish`. A hasher made by `DefaultHasher::new` starts
/// from fixed keys, so the result depends on the item's fields alone.
#[verifier::external_body]
fn hash_item(item: &Item) -> (hash: u64)
    ensures
        hash == fingerprint_of(item@),
{
    let mut hasher = DefaultHasher::new();
    item.hash(&mut hasher);
    hasher.finish()
}

/// The lower-case pieces of a raw tag text, each once.
fn lowered_tags(raw: &String) -> (tags: Vec<String>)
    ensures
        texts(tags@).no_duplicates(),
        texts(tags@).to_set() == tags_of(raw@),
{
    let pieces = split_spaces(raw.as_str());
    let mut tags: Vec<String> = Vec::new();
    let mut i: usize = 0;
    while i < pieces.len()
        invariant
            i <= pieces.len(),
            texts(pieces@) == split_on(raw@, ' '),
            texts(tags@).no_duplicates(),
            forall|t: Seq<char>|
                texts(tags@).contains(t) <==> exists|k: int|
                    0 <= k < i && t == lowercase_of(#[trigger] texts(pieces@)[k]),
        decreases pieces.len() - i,
    {
        let lower = str_to_lowercase(pieces[i].as_str());
        let ghost before = texts(tags@);
        assert(texts(pieces@)[i as int] == pieces[i as int]@);
        if !list_contains(&tags, &lower) {
            tags.push(lower);
            assert(texts(tags@) =~= before.push(lower@));
            assert forall|t: Seq<char>| texts(tags@).contains(t) <==> exists|k: int|
                0 <= k < i + 1 && t == lowercase_of(#[trigger] texts(pieces@)[k]) by {
                if texts(tags@).contains(t) {
                    let j = choose|j: int| 0 <= j < texts(tags@).len() && texts(tags@)[j] == t;
                    if j < before.len() {
                        assert(before[j] == t);
                        assert(before.contains(t));
                    } else {
                        assert(t == lowercase_of(texts(pieces@)[i as int]));
                    }
                }
                if exists|k: int| 0 <= k < i + 1 && t == lowercase_of(#[trigger] texts(pieces@)[k]) {
                    let k = choose|k: int|
                        0 <= k < i + 1 && t == lowercase_of(#[trigger] texts(pieces@)[k]);
                    if k < i {
                        assert(before.contains(t));
                        let j = choose|j: int| 0 <= j < before.len() && before[j] == t;
                        assert(texts(tags@)[j] == t);
                    } else {
                        assert(texts(tags@)[before.len() as int] == t);
                    }
                }
            }
        } else {
            assert forall|t: Seq<char>| texts(tags@).contains(t) <==> exists|k: int|
                0 <= k < i + 1 && t == lowercase_of(#[trigger] texts(pieces@)[k]) by {
                if exists|k: int| 0 <= k < i + 1 && t == lowercase_of(#[trigger] texts(pieces@)[k]) {
                    let k = choose|k: int|
                        0 <= k < i + 1 && t == lowercase_of(#[trigger] texts(pieces@)[k]);
                    if k == i {
                        assert(t == lower@);
                    }
                }
            }
        }
        i += 1;
    }
    assert(texts(tags@).to_set() =~= tags_of(raw@));
    tags
}

impl Item {
    /// The address to download the item from: the enclosure's address if
    /// there is one, else the item's link. An item with neither is refused.
    pub fn link(&self) -> (address: Result<String, Error>)
        ensures
            match address {
                Ok(url) => self@.download_url() == Some(url@),
                Err(e) => e == Error::SerdeMissing && self@.download_url() is None,
            },
    {
        if let Some(enclosure) = &self.enclosure {
            if let Some(url) = &enclosure.url {
                return Ok(url.clone());
            }
        }
        if let Some(link) = &self.link {
            return Ok(link.clone());
        }
        Err(Error::SerdeMissing)
    }
}

impl Torrent {
    /// A torrent block with every field absent.
    pub fn default() -> (empty: Self)
        ensures
            empty.file_name is None,
            empty.info_hash is None,
            empty.content_length is None,
    {
        Self { file_name: None, info_hash: None, content_length: None }
    }
}

/// An announcement: an item in the form that the matcher and the feed
/// worker read. The tags hold no text twice.
#[derive(Debug)]
pub struct SerdeTorrentData {
    pub title: String,
    pub tags: Vec<String>,
    pub download_link: String,
    pub size: Option<u64>,
    pub item_hash: u64,
}

impl View for SerdeTorrentData {
    type V = AnnouncementView;

    open spec fn view(&self) -> AnnouncementView {
        AnnouncementView {
            title: self.title@,
            tags: texts(self.tags@).to_set(),
            download_link: self.download_link@,
            size: self.size,
            item_hash: self.item_hash,
        }
    }
}

impl SerdeTorrentData {
    /// Decodes one item. An item without a download address is refused and
    /// every other item is accepted; the fingerprint is taken from the item
    /// before its title and tags are put in lower case.
    pub fn new(item: &Item) -> (decoded: Result<Self, Error>)
        ensures
            match decoded {
                Ok(data) => {
                    &&& item@.download_url() is Some
                    &&& data@ == item@.announcement()
                    &&& texts(data.tags@).no_duplicates()
                },
                Err(e) => e == Error::SerdeMissing && item@.download_url() is None,
            },
    {
        let hash = hash_item(item);
        let link = match item.link() {
            Ok(link) => link,
            Err(e) => {
                return Err(e);
            },
        };
        let title = match &item.title {
            Some(title) => str_to_lowercase(title.as_str()),
            None => String::new(),
        };
        let tags = match &item.tags {
            Some(tags) => lowered_tags(tags),
            None => Vec::new(),
        };
        let torrent = match &item.torrent {
            Some(torrent) => torrent.content_length,
            None => Torrent::default().content_length,
        };
        let data = Self { title, tags, download_link: link, size: torrent, item_hash: hash };
        assert(data@.tags =~= item@.tag_set());
        Ok(data)
    }
}

/// The mathematical forms of a list of announcements.
pub open spec fn announcement_views(list: Seq<SerdeTorrentData>) -> Seq<AnnouncementView> {
    Seq::new(list.len(), |i: int| list[i]@)
}

/// Decodes a feed document into its announcements, in the order of the
/// items. A document without a channel or without an item list is refused;
/// an item without a download address is left out and the rest still
/// decode.
pub fn xml_to_torrents(doc: &Document) -> (decoded: Result<Vec<SerdeTorrentData>, Error>)
    ensures
        match decoded {
            Ok(list) => {
                &&& doc.items() is Some
                &&& announcement_views(list@) == announcements(doc.items().unwrap())
                &&& forall|i: int| 0 <= i < list.len() ==> texts(#[trigger] list[i].tags@).no_duplicates()
            },
            Err(e) => e == Error::SerdeMissing && doc.items() is None,
        },
{
    if let Some(channel) = &doc.channel {
        if let Some(items) = &channel.item {
            let mut list: Vec<SerdeTorrentData> = Vec::new();
            let mut i: usize = 0;
            while i < items.len()
                invariant
                    i <= items.len(),
                    announcement_views(list@) == announcements(item_views(items@).take(i as int)),
                    forall|j: int| 0 <= j < list.len() ==> texts(#[trigger] list[j].tags@).no_duplicates(),
                decreases items.len() - i,
            {
                let ghost before = announcement_views(list@);
                let ghost upto = item_views(items@).take(i as int + 1);
                assert(upto.drop_last() =~= item_views(items@).take(i as int));
                assert(upto.last() == items[i as int]@);
                if let Ok(data) = SerdeTorrentData::new(&items[i]) {
                    list.push(data);
                    assert(announcement_views(list@) =~= before.push(data@));
                }
                i += 1;
            }
            assert(item_views(items@).take(items.len() as int) =~= item_views(items@));
            Ok(list)
        } else {
            Err(Error::SerdeMissing)
        }
    } else {
        Err(Error::SerdeMissing)
    }
}

impl SerdeTorrentData {
    /// A copy of the announcement.
    pub fn duplicate(&self) -> (copy: Self)
        ensures
            copy@ == self@,
            texts(copy.tags@) == texts(self.tags@),
    {
        Self {
            title: self.title.clone(),
            tags: clone_texts(&self.tags),
            download_link: self.download_link.clone(),
            size: self.size,
            item_hash: self.item_hash,
        }
    }
}

/// An announcement together with the rule that accepted it, which decides
/// the save folder and whether the torrent is added paused.
#[derive(Debug)]
pub struct TorrentData<'a> {
    pub title: String,
    pub tags: Vec<String>,
    pub download_link: String,
    pub size: Option<u64>,
    pub item_hash: u64,
    pub original_matcher: &'a TorrentMatch,
}

impl<'a> View for TorrentData<'a> {
    type V = BoundView;

    open spec fn view(&self) -> BoundView {
        BoundView {
            announcement: AnnouncementView {
                title: self.title@,
                tags: texts(self.tags@).to_set(),
                download_link: self.download_link@,
                size: self.size,
                item_hash: self.item_hash,
            },
            rule: self.original_matcher@,
        }
    }
}

/// The text of the sidecar file's location for a save folder and a
/// fingerprint.
pub open spec fn metadata_path_of(save_folder: Seq<char>, item_hash: u64) -> Seq<char> {
    save_folder + "/__META_"@ + decimal(item_hash as nat) + ".yaml"@
}

impl<'a> TorrentData<'a> {
    /// Binds an announcement to the rule that accepted it.
    pub fn from_serde_data(data: SerdeTorrentData, matcher: &'a TorrentMatch) -> (bound: Self)
        ensures
            bound.title == data.title,
            bound.tags == data.tags,
            bound.download_link == data.download_link,
            bound.size == data.size,
            bound.item_hash == data.item_hash,
            bound.original_matcher == matcher,
            bound@ == (BoundView { announcement: data@, rule: matcher@ }),
    {
        TorrentData {
            title: data.title,
            tags: data.tags,
            download_link: data.download_link,
            size: data.size,
            item_hash: data.item_hash,
            original_matcher: matcher,
        }
    }

    /// Where the sidecar record of this announcement is written: inside the
    /// save folder, named after the fingerprint.
    pub fn metadata_path(&self) -> (path: String)
        ensures
            path@ == metadata_path_of(self.original_matcher.save_folder@, self.item_hash),
    {
        let mut path = self.original_matcher.save_folder.clone();
        path.append("/__META_");
        path.append(u64_to_decimal(self.item_hash).as_str());
        path.append(".yaml");
        path
    }
}

} // verus!
