//! The configuration model: feeds, their match rules, and the credentials of
//! the torrent client.

use vstd::prelude::*;
use crate::rss::{
    announcement_views, announcements, xml_to_torrents, AnnouncementView, BoundView, Document,
    TorrentData,
};
use crate::text::{
    ascii_lowered, is_substring, list_contains, lowercase_of, str_contains, str_to_lowercase, texts,
};
use crate::monitor::{ascii_lowered_or_empty, ascii_lowered_texts, FeedMonitor, QbitMonitor};
use crate::Error;

verus! {

/// A matcher: absent, or a list of OR-groups that must all be satisfied.
pub type Matcher = Option<Vec<Vec<String>>>;

/// What a matcher holds, as nested sequences of texts.
pub type MatcherView = Option<Seq<Seq<Seq<char>>>>;

/// The mathematical form of a list of OR-groups.
pub open spec fn groups_view(groups: Seq<Vec<String>>) -> Seq<Seq<Seq<char>>> {
    Seq::new(groups.len(), |g: int| texts(groups[g]@))
}

/// The mathematical form of a matcher.
pub open spec fn matcher_view(m: Matcher) -> MatcherView {
    match m {
        None => None,
        Some(groups) => Some(groups_view(groups@)),
    }
}

/// Some alternative of `group` is a substring of `title`.
pub open spec fn title_hits_group(title: Seq<char>, group: Seq<Seq<char>>) -> bool {
    exists|k: int| 0 <= k < group.len() && is_substring(title, #[trigger] group[k])
}

/// Some alternative of `group` is a member of `tags`.
pub open spec fn tags_hit_group(tags: Set<Seq<char>>, group: Seq<Seq<char>>) -> bool {
    exists|k: int| 0 <= k < group.len() && tags.contains(#[trigger] group[k])
}

/// Every OR-group has an alternative in `title`.
pub open spec fn every_group_in_title(groups: Seq<Seq<Seq<char>>>, title: Seq<char>) -> bool {
    forall|g: int| 0 <= g < groups.len() ==> title_hits_group(title, #[trigger] groups[g])
}

/// Some OR-group has an alternative in `title`.
pub open spec fn any_group_in_title(groups: Seq<Seq<Seq<char>>>, title: Seq<char>) -> bool {
    exists|g: int| 0 <= g < groups.len() && title_hits_group(title, #[trigger] groups[g])
}

/// Every OR-group has an alternative among `tags`.
pub open spec fn every_group_in_tags(groups: Seq<Seq<Seq<char>>>, tags: Set<Seq<char>>) -> bool {
    forall|g: int| 0 <= g < groups.len() ==> tags_hit_group(tags, #[trigger] groups[g])
}

/// Some OR-group has an alternative among `tags`.
pub open spec fn any_group_in_tags(groups: Seq<Seq<Seq<char>>>, tags: Set<Seq<char>>) -> bool {
    exists|g: int| 0 <= g < groups.len() && tags_hit_group(tags, #[trigger] groups[g])
}

/// A wanted-title matcher holds when it is absent or every one of its
/// OR-groups has an alternative in `title`.
pub open spec fn title_wanted_holds(m: MatcherView, title: Seq<char>) -> bool {
    match m {
        None => true,
        Some(groups) => every_group_in_title(groups, title),
    }
}

/// A banned-title matcher trips when it is present and one of its OR-groups
/// has an alternative in `title`.
pub open spec fn title_banned_trips(m: MatcherView, title: Seq<char>) -> bool {
    match m {
        None => false,
        Some(groups) => any_group_in_title(groups, title),
    }
}

/// A wanted-tags matcher holds when it is absent or every one of its
/// OR-groups has an alternative among `tags`.
pub open spec fn tags_wanted_hold(m: MatcherView, tags: Set<Seq<char>>) -> bool {
    match m {
        None => true,
        Some(groups) => every_group_in_tags(groups, tags),
    }
}

/// A banned-tags matcher trips when it is present and one of its OR-groups
/// has an alternative among `tags`.
pub open spec fn tags_banned_trip(m: MatcherView, tags: Set<Seq<char>>) -> bool {
    match m {
        None => false,
        Some(groups) => any_group_in_tags(groups, tags),
    }
}

/// An OR-group with every alternative in lower case.
pub open spec fn lower_group(group: Seq<Seq<char>>) -> Seq<Seq<char>> {
    Seq::new(group.len(), |k: int| lowercase_of(group[k]))
}

/// A list of OR-groups with every alternative in lower case.
pub open spec fn lower_groups(groups: Seq<Seq<Seq<char>>>) -> Seq<Seq<Seq<char>>> {
    Seq::new(groups.len(), |g: int| lower_group(groups[g]))
}

/// A matcher with every alternative in lower case.
pub open spec fn lower_matcher(m: MatcherView) -> MatcherView {
    match m {
        None => None,
        Some(groups) => Some(lower_groups(groups)),
    }
}

/// Whether some alternative of `group` is a substring of `title`.
pub fn title_contains_any(title: &String, group: &Vec<String>) -> (good: bool)
    ensures
        good == title_hits_group(title@, texts(group@)),
{
    let mut i: usize = 0;
    while i < group.len()
        invariant
            i <= group.len(),
            forall|k: int| 0 <= k < i ==> !is_substring(title@, group[k]@),
        decreases group.len() - i,
    {
        if str_contains(title.as_str(), group[i].as_str()) {
            assert(texts(group@)[i as int] == group[i as int]@);
            return true;
        }
        i += 1;
    }
    assert forall|k: int| 0 <= k < texts(group@).len() implies !is_substring(
        title@,
        #[trigger] texts(group@)[k],
    ) by {
        assert(texts(group@)[k] == group[k]@);
    }
    false
}

/// Whether some alternative of `group` is one of `tags`.
pub fn tags_contain_any(tags: &Vec<String>, group: &Vec<String>) -> (good: bool)
    ensures
        good == tags_hit_group(texts(tags@).to_set(), texts(group@)),
{
    let mut i: usize = 0;
    while i < group.len()
        invariant
            i <= group.len(),
            forall|k: int| 0 <= k < i ==> !texts(tags@).contains(group[k]@),
        decreases group.len() - i,
    {
        if list_contains(tags, &group[i]) {
            assert(texts(group@)[i as int] == group[i as int]@);
            return true;
        }
        i += 1;
    }
    assert forall|k: int| 0 <= k < texts(group@).len() implies !texts(tags@).to_set().contains(
        #[trigger] texts(group@)[k],
    ) by {
        assert(texts(group@)[k] == group[k]@);
    }
    false
}

/// One rule of a feed: four optional matchers, the folder that matching
/// torrents are saved to, and whether they are added paused.
#[derive(Debug, Clone)]
pub struct TorrentMatch {
    pub title_wanted: Matcher,
    pub title_banned: Matcher,
    pub tags_wanted: Matcher,
    pub tags_banned: Matcher,
    pub save_folder: String,
    pub start_paused: Option<bool>,
}

/// The mathematical form of a rule.
pub struct TorrentMatchView {
    pub title_wanted: MatcherView,
    pub title_banned: MatcherView,
    pub tags_wanted: MatcherView,
    pub tags_banned: MatcherView,
    pub save_folder: Seq<char>,
    pub start_paused: Option<bool>,
}

impl View for TorrentMatch {
    type V = TorrentMatchView;

    open spec fn view(&self) -> TorrentMatchView {
        TorrentMatchView {
            title_wanted: matcher_view(self.title_wanted),
            title_banned: matcher_view(self.title_banned),
            tags_wanted: matcher_view(self.tags_wanted),
            tags_banned: matcher_view(self.tags_banned),
            save_folder: self.save_folder@,
            start_paused: self.start_paused,
        }
    }
}

impl TorrentMatchView {
    /// The title clauses: every wanted group is met and no banned group trips.
    pub open spec fn title_ok(self, title: Seq<char>) -> bool {
        title_wanted_holds(self.title_wanted, title) && !title_banned_trips(self.title_banned, title)
    }

    /// The tag clauses: every wanted group is met and no banned group trips.
    pub open spec fn tags_ok(self, tags: Set<Seq<char>>) -> bool {
        tags_wanted_hold(self.tags_wanted, tags) && !tags_banned_trip(self.tags_banned, tags)
    }

    /// A rule accepts an announcement when all four clauses hold.
    pub open spec fn accepts(self, title: Seq<char>, tags: Set<Seq<char>>) -> bool {
        self.title_ok(title) && self.tags_ok(tags)
    }

    /// The rule with every matcher literal in lower case.
    pub open spec fn lowered(self) -> TorrentMatchView {
        TorrentMatchView {
            title_wanted: lower_matcher(self.title_wanted),
            title_banned: lower_matcher(self.title_banned),
            tags_wanted: lower_matcher(self.tags_wanted),
            tags_banned: lower_matcher(self.tags_banned),
            save_folder: self.save_folder,
            start_paused: self.start_paused,
        }
    }
}

/// Every OR-group has an alternative in `title`.
fn all_groups_in_title(groups: &Vec<Vec<String>>, title: &String) -> (good: bool)
    ensures
        good == every_group_in_title(groups_view(groups@), title@),
{
    let mut i: usize = 0;
    while i < groups.len()
        invariant
            i <= groups.len(),
            forall|g: int| 0 <= g < i ==> title_hits_group(title@, texts(groups[g]@)),
        decreases groups.len() - i,
    {
        if !title_contains_any(title, &groups[i]) {
            assert(groups_view(groups@)[i as int] == texts(groups[i as int]@));
            return false;
        }
        i += 1;
    }
    assert forall|g: int| 0 <= g < groups_view(groups@).len() implies title_hits_group(
        title@,
        #[trigger] groups_view(groups@)[g],
    ) by {
        assert(groups_view(groups@)[g] == texts(groups[g]@));
    }
    true
}

/// Some OR-group has an alternative in `title`.
fn some_group_in_title(groups: &Vec<Vec<String>>, title: &String) -> (hit: bool)
    ensures
        hit == any_group_in_title(groups_view(groups@), title@),
{
    let mut i: usize = 0;
    while i < groups.len()
        invariant
            i <= groups.len(),
            forall|g: int| 0 <= g < i ==> !title_hits_group(title@, texts(groups[g]@)),
        decreases groups.len() - i,
    {
        if title_contains_any(title, &groups[i]) {
            assert(groups_view(groups@)[i as int] == texts(groups[i as int]@));
            return true;
        }
        i += 1;
    }
    assert forall|g: int| 0 <= g < groups_view(groups@).len() implies !title_hits_group(
        title@,
        #[trigger] groups_view(groups@)[g],
    ) by {
        assert(groups_view(groups@)[g] == texts(groups[g]@));
    }
    false
}

/// Every OR-group has an alternative among `tags`.
fn all_groups_in_tags(groups: &Vec<Vec<String>>, tags: &Vec<String>) -> (good: bool)
    ensures
        good == every_group_in_tags(groups_view(groups@), texts(tags@).to_set()),
{
    let mut i: usize = 0;
    while i < groups.len()
        invariant
            i <= groups.len(),
            forall|g: int|
                0 <= g < i ==> tags_hit_group(texts(tags@).to_set(), texts(groups[g]@)),
        decreases groups.len() - i,
    {
        if !tags_contain_any(tags, &groups[i]) {
            assert(groups_view(groups@)[i as int] == texts(groups[i as int]@));
            return false;
        }
        i += 1;
    }
    assert forall|g: int| 0 <= g < groups_view(groups@).len() implies tags_hit_group(
        texts(tags@).to_set(),
        #[trigger] groups_view(groups@)[g],
    ) by {
        assert(groups_view(groups@)[g] == texts(groups[g]@));
    }
    true
}

/// Some OR-group has an alternative among `tags`.
fn some_group_in_tags(groups: &Vec<Vec<String>>, tags: &Vec<String>) -> (hit: bool)
    ensures
        hit == any_group_in_tags(groups_view(groups@), texts(tags@).to_set()),
{
    let mut i: usize = 0;
    while i < groups.len()
        invariant
            i <= groups.len(),
            forall|g: int|
                0 <= g < i ==> !tags_hit_group(texts(tags@).to_set(), texts(groups[g]@)),
        decreases groups.len() - i,
    {
        if tags_contain_any(tags, &groups[i]) {
            assert(groups_view(groups@)[i as int] == texts(groups[i as int]@));
            return true;
        }
        i += 1;
    }
    assert forall|g: int| 0 <= g < groups_view(groups@).len() implies !tags_hit_group(
        texts(tags@).to_set(),
        #[trigger] groups_view(groups@)[g],
    ) by {
        assert(groups_view(groups@)[g] == texts(groups[g]@));
    }
    false
}

/// A copy of an OR-group with every alternative in lower case.
fn lowercase_group(group: &Vec<String>) -> (lower: Vec<String>)
    ensures
        texts(lower@) == lower_group(texts(group@)),
{
    let mut lower: Vec<String> = Vec::new();
    let mut i: usize = 0;
    while i < group.len()
        invariant
            i <= group.len(),
            lower.len() == i,
            forall|k: int| 0 <= k < i ==> lower[k]@ == lowercase_of(group[k]@),
        decreases group.len() - i,
    {
        lower.push(str_to_lowercase(group[i].as_str()));
        i += 1;
    }
    assert(texts(lower@) =~= lower_group(texts(group@)));
    lower
}

/// A copy of a matcher with every alternative in lower case.
fn lowercase_matcher(m: &Matcher) -> (lower: Matcher)
    ensures
        matcher_view(lower) == lower_matcher(matcher_view(*m)),
{
    match m {
        None => None,
        Some(groups) => {
            let mut lower: Vec<Vec<String>> = Vec::new();
            let mut i: usize = 0;
            while i < groups.len()
                invariant
                    i <= groups.len(),
                    lower.len() == i,
                    forall|g: int|
                        0 <= g < i ==> texts(lower[g]@) == lower_group(texts(groups[g]@)),
                decreases groups.len() - i,
            {
                lower.push(lowercase_group(&groups[i]));
                i += 1;
            }
            assert(groups_view(lower@) =~= lower_groups(groups_view(groups@)));
            Some(lower)
        },
    }
}

impl TorrentMatch {
    /// Replaces every matcher literal by its lower-case form. The save folder
    /// and the paused flag stay as they are.
    pub fn lowercase(&mut self)
        ensures
            final(self)@ == old(self)@.lowered(),
    {
        self.title_wanted = lowercase_matcher(&self.title_wanted);
        self.title_banned = lowercase_matcher(&self.title_banned);
        self.tags_banned = lowercase_matcher(&self.tags_banned);
        self.tags_wanted = lowercase_matcher(&self.tags_wanted);
    }

    /// The title clauses of the rule: every wanted group has an alternative
    /// in the title, and no banned group has one.
    pub fn match_title(&self, title_input: &String) -> (good_title: bool)
        ensures
            good_title == self@.title_ok(title_input@),
    {
        let wanted = match &self.title_wanted {
            Some(groups) => all_groups_in_title(groups, title_input),
            None => true,
        };
        let banned = match &self.title_banned {
            Some(groups) => some_group_in_title(groups, title_input),
            None => false,
        };
        wanted && !banned
    }

    /// The tag clauses of the rule, by membership in the tag set.
    pub fn match_tags(&self, tag_input: &Vec<String>) -> (good_tags: bool)
        ensures
            good_tags == self@.tags_ok(texts(tag_input@).to_set()),
    {
        let wanted = match &self.tags_wanted {
            Some(groups) => all_groups_in_tags(groups, tag_input),
            None => true,
        };
        let banned = match &self.tags_banned {
            Some(groups) => some_group_in_tags(groups, tag_input),
            None => false,
        };
        wanted && !banned
    }

    /// Whether the rule accepts an announcement with this title and these
    /// tags: a function of the rule, the title and the tag set alone.
    pub fn matches(&self, title: &String, tags: &Vec<String>) -> (accepted: bool)
        ensures
            accepted == self@.accepts(title@, texts(tags@).to_set()),
    {
        self.match_title(title) && self.match_tags(tags)
    }

    /// Whether a torrent bound to this rule is added paused. An absent flag
    /// means that it starts at once.
    pub fn paused_on_add(&self) -> (paused: bool)
        ensures
            paused == (self.start_paused == Some(true)),
    {
        match self.start_paused {
            Some(val) => val,
            None => false,
        }
    }

    /// The paused flag in the spelling of the torrent client's web API.
    pub fn start_condition(&self) -> (flag: String)
        ensures
            flag@ == (if self.start_paused == Some(true) {
                "true"@
            } else {
                "false"@
            }),
    {
        if self.paused_on_add() {
            "true".to_owned()
        } else {
            "false".to_owned()
        }
    }
}

/// The mathematical forms of a list of rules.
pub open spec fn rule_views(rules: Seq<TorrentMatch>) -> Seq<TorrentMatchView> {
    Seq::new(rules.len(), |i: int| rules[i]@)
}

/// The rules with every matcher literal in lower case.
pub open spec fn lowered_rules(rules: Seq<TorrentMatchView>) -> Seq<TorrentMatchView> {
    Seq::new(rules.len(), |i: int| rules[i].lowered())
}

/// The position of the first rule from `from` on that accepts the title and
/// the tags, if there is one.
pub open spec fn first_accepting(
    rules: Seq<TorrentMatchView>,
    title: Seq<char>,
    tags: Set<Seq<char>>,
    from: int,
) -> Option<int>
    decreases rules.len() - from,
{
    if from < 0 || from >= rules.len() {
        None
    } else if rules[from].accepts(title, tags) {
        Some(from)
    } else {
        first_accepting(rules, title, tags, from + 1)
    }
}

/// The announcements that some rule accepts, in order, each bound to the
/// first rule that accepts it.
pub open spec fn bind(rules: Seq<TorrentMatchView>, found: Seq<AnnouncementView>) -> Seq<BoundView>
    decreases found.len(),
{
    if found.len() == 0 {
        Seq::empty()
    } else {
        let front = bind(rules, found.drop_last());
        let last = found.last();
        match first_accepting(rules, last.title, last.tags, 0) {
            Some(i) => front.push(BoundView { announcement: last, rule: rules[i] }),
            None => front,
        }
    }
}

/// The mathematical forms of a list of bound announcements.
pub open spec fn bound_views<'a>(list: Seq<TorrentData<'a>>) -> Seq<BoundView> {
    Seq::new(list.len(), |i: int| list[i]@)
}

/// The first accepting rule is a rule that accepts, and no rule before it
/// does; where there is none, no rule accepts.
pub proof fn first_accepting_is_first(
    rules: Seq<TorrentMatchView>,
    title: Seq<char>,
    tags: Set<Seq<char>>,
    from: int,
)
    requires
        0 <= from,
    ensures
        match first_accepting(rules, title, tags, from) {
            Some(i) => {
                &&& from <= i < rules.len()
                &&& rules[i].accepts(title, tags)
                &&& forall|k: int| from <= k < i ==> !(#[trigger] rules[k]).accepts(title, tags)
            },
            None => forall|k: int|
                from <= k < rules.len() ==> !(#[trigger] rules[k]).accepts(title, tags),
        },
    decreases rules.len() - from,
{
    if from < rules.len() && !rules[from].accepts(title, tags) {
        first_accepting_is_first(rules, title, tags, from + 1);
    }
}

/// One feed: its address, how often it is read, and its rules in order.
#[derive(Debug, Clone)]
pub struct RssFeed {
    pub url: String,
    pub update_interval: u32,
    pub last_announce: u32,
    pub matcher: Vec<TorrentMatch>,
}

impl RssFeed {
    /// This feed is `before` with every matcher literal in lower case and
    /// nothing else changed.
    pub open spec fn is_lowered(&self, before: &RssFeed) -> bool {
        &&& self.url == before.url
        &&& self.update_interval == before.update_interval
        &&& self.last_announce == before.last_announce
        &&& rule_views(self.matcher@) == lowered_rules(rule_views(before.matcher@))
    }

    /// The first rule of the feed that accepts the title and the tags.
    pub fn bound_rule(&self, title: &String, tags: &Vec<String>) -> (found: Option<usize>)
        ensures
            match found {
                Some(i) => i < self.matcher.len() && first_accepting(
                    rule_views(self.matcher@),
                    title@,
                    texts(tags@).to_set(),
                    0,
                ) == Some(i as int),
                None => first_accepting(
                    rule_views(self.matcher@),
                    title@,
                    texts(tags@).to_set(),
                    0,
                ) is None,
            },
    {
        let ghost rules = rule_views(self.matcher@);
        let ghost tag_set = texts(tags@).to_set();
        let mut i: usize = 0;
        while i < self.matcher.len()
            invariant
                i <= self.matcher.len(),
                rules == rule_views(self.matcher@),
                tag_set == texts(tags@).to_set(),
                first_accepting(rules, title@, tag_set, 0) == first_accepting(
                    rules,
                    title@,
                    tag_set,
                    i as int,
                ),
            decreases self.matcher.len() - i,
        {
            assert(rules[i as int] == self.matcher[i as int]@);
            if self.matcher[i].matches(title, tags) {
                return Some(i);
            }
            i += 1;
        }
        None
    }

    /// Decodes a fetched feed document and keeps the announcements that some
    /// rule of the feed accepts, each bound to the first such rule.
    pub fn fetch_new<'a>(&'a self, doc: &Document) -> (fetched: Result<Vec<TorrentData<'a>>, Error>)
        ensures
            match fetched {
                Ok(list) => {
                    &&& doc.items() is Some
                    &&& bound_views(list@) == bind(
                        rule_views(self.matcher@),
                        announcements(doc.items().unwrap()),
                    )
                },
                Err(e) => e == Error::SerdeMissing && doc.items() is None,
            },
    {
        let data = match xml_to_torrents(doc) {
            Ok(data) => data,
            Err(e) => {
                return Err(e);
            },
        };
        let ghost rules = rule_views(self.matcher@);
        let ghost found = announcement_views(data@);
        let mut list: Vec<TorrentData<'a>> = Vec::new();
        let mut i: usize = 0;
        while i < data.len()
            invariant
                i <= data.len(),
                rules == rule_views(self.matcher@),
                found == announcement_views(data@),
                bound_views(list@) == bind(rules, found.take(i as int)),
            decreases data.len() - i,
        {
            let ghost before = bound_views(list@);
            let ghost upto = found.take(i as int + 1);
            assert(upto.drop_last() =~= found.take(i as int));
            assert(upto.last() == data[i as int]@);
            let x = &data[i];
            if let Some(r) = self.bound_rule(&x.title, &x.tags) {
                let bound = TorrentData::from_serde_data(x.duplicate(), &self.matcher[r]);
                assert(rules[r as int] == self.matcher[r as int]@);
                list.push(bound);
                assert(bound_views(list@) =~= before.push(bound@));
            }
            i += 1;
        }
        assert(found.take(data.len() as int) =~= found);
        Ok(list)
    }

    /// Puts every matcher literal of every rule in lower case.
    pub fn lowercase(&mut self)
        ensures
            final(self).is_lowered(old(self)),
    {
        let mut i: usize = 0;
        while i < self.matcher.len()
            invariant
                i <= self.matcher.len(),
                self.url == old(self).url,
                self.update_interval == old(self).update_interval,
                self.last_announce == old(self).last_announce,
                self.matcher.len() == old(self).matcher.len(),
                forall|k: int| 0 <= k < i ==> (#[trigger] self.matcher[k])@ == old(self).matcher[k]@.lowered(),
                forall|k: int| i <= k < self.matcher.len() ==> (#[trigger] self.matcher[k]) == old(self).matcher[k],
            decreases self.matcher.len() - i,
        {
            self.matcher[i].lowercase();
            i += 1;
        }
        assert(rule_views(self.matcher@) =~= lowered_rules(rule_views(old(self).matcher@)));
    }
}

/// The credentials of the torrent client and the lists that the reconciler
/// enforces.
#[derive(Debug, Clone)]
pub struct QbittorrentAuthentication {
    pub username: String,
    pub password: String,
    pub address: String,
    pub trackers: Vec<String>,
    pub title_bans: Option<Vec<String>>,
    pub file_bans: Option<Vec<String>>,
}

impl QbittorrentAuthentication {
    /// These are the credentials `before` with the tracker allow-list and
    /// the title bans in ASCII lower case, entry by entry and in order. An
    /// absent ban list stays absent; the username, the password, the
    /// address and the file bans are unchanged.
    pub open spec fn is_lowered(&self, before: &QbittorrentAuthentication) -> bool {
        &&& self.username == before.username
        &&& self.password == before.password
        &&& self.address == before.address
        &&& self.file_bans == before.file_bans
        &&& texts(self.trackers@) == ascii_lowered_texts(before.trackers@)
        &&& match before.title_bans {
            Some(bans) => self.title_bans is Some && texts(self.title_bans.unwrap()@)
                == ascii_lowered_texts(bans@),
            None => self.title_bans is None,
        }
    }

    /// Puts the tracker allow-list and the title bans in ASCII lower case.
    pub fn lowercase(&mut self)
        ensures
            final(self).is_lowered(old(self)),
    {
        let trackers = ascii_lowered(&self.trackers);
        let title_bans = match &self.title_bans {
            Some(bans) => Some(ascii_lowered(bans)),
            None => None,
        };
        proof {
            assert(texts(trackers@) =~= ascii_lowered_texts(self.trackers@));
            if self.title_bans is Some {
                assert(texts(title_bans.unwrap()@) =~= ascii_lowered_texts(
                    self.title_bans.unwrap()@,
                ));
            }
        }
        self.trackers = trackers;
        self.title_bans = title_bans;
    }
}

/// The whole configuration: the feeds and the torrent client.
#[derive(Debug)]
pub struct FeedManager {
    pub feeds: Vec<RssFeed>,
    pub qbit_data: QbittorrentAuthentication,
}

impl FeedManager {
    /// This configuration is `before` with every matcher literal of every
    /// feed, every entry of the tracker allow-list and every title ban in
    /// lower case, and nothing else changed.
    pub open spec fn is_lowered(&self, before: &FeedManager) -> bool {
        &&& self.qbit_data.is_lowered(&before.qbit_data)
        &&& self.feeds.len() == before.feeds.len()
        &&& forall|i: int|
            0 <= i < self.feeds.len() ==> (#[trigger] self.feeds[i]).is_lowered(&before.feeds[i])
    }

    /// The position of the first candidate location that could be read.
    /// Without one the configuration is missing.
    pub fn first_readable(readable: &Vec<bool>) -> (chosen: Result<usize, Error>)
        ensures
            match chosen {
                Ok(i) => {
                    &&& i < readable.len()
                    &&& readable[i as int]
                    &&& forall|k: int| 0 <= k < i ==> !readable[k]
                },
                Err(e) => e == Error::ConfigMissing && forall|k: int|
                    0 <= k < readable.len() ==> !readable[k],
            },
    {
        let mut i: usize = 0;
        while i < readable.len()
            invariant
                i <= readable.len(),
                forall|k: int| 0 <= k < i ==> !readable[k],
            decreases readable.len() - i,
        {
            if readable[i] {
                return Ok(i);
            }
            i += 1;
        }
        Err(Error::ConfigMissing)
    }

    /// Takes the configuration that was decoded from the first readable
    /// location and puts its matcher literals, its tracker allow-list and
    /// its title bans in lower case. Where no location could be read the
    /// configuration is missing.
    pub fn from_yaml(loaded: Option<FeedManager>) -> (config: Result<FeedManager, Error>)
        ensures
            match config {
                Ok(yaml) => loaded is Some && yaml.is_lowered(&loaded.unwrap()),
                Err(e) => e == Error::ConfigMissing && loaded is None,
            },
    {
        match loaded {
            Some(mut yaml) => {
                yaml.lowercase();
                Ok(yaml)
            },
            None => Err(Error::ConfigMissing),
        }
    }

    /// Puts every matcher literal of every feed, the tracker allow-list and
    /// the title bans in lower case.
    pub fn lowercase(&mut self)
        ensures
            final(self).is_lowered(old(self)),
    {
        self.qbit_data.lowercase();
        let mut i: usize = 0;
        while i < self.feeds.len()
            invariant
                i <= self.feeds.len(),
                self.qbit_data.is_lowered(&old(self).qbit_data),
                self.feeds.len() == old(self).feeds.len(),
                forall|k: int|
                    0 <= k < i ==> (#[trigger] self.feeds[k]).is_lowered(&old(self).feeds[k]),
                forall|k: int|
                    i <= k < self.feeds.len() ==> (#[trigger] self.feeds[k]) == old(self).feeds[k],
            decreases self.feeds.len() - i,
        {
            self.feeds[i].lowercase();
            i += 1;
        }
    }

    /// A reconciler for the configured torrent client.
    pub fn qbit(&self) -> (monitor: QbitMonitor)
        ensures
            monitor.wf(),
            monitor@.all == Set::<Seq<char>>::empty(),
            monitor@.paused_tracker == Set::<Seq<char>>::empty(),
            monitor@.paused_title == Set::<Seq<char>>::empty(),
            monitor@.trackers == ascii_lowered_texts(self.qbit_data.trackers@),
            monitor@.title_bans == ascii_lowered_or_empty(self.qbit_data.title_bans),
            monitor@.file_bans == ascii_lowered_or_empty(self.qbit_data.file_bans),
    {
        QbitMonitor::new(&self.qbit_data)
    }

    /// One worker for each feed, in the order of the feeds, none of which
    /// has dispatched anything yet.
    pub fn split(self) -> (workers: Vec<FeedMonitor>)
        ensures
            workers.len() == self.feeds.len(),
            forall|i: int|
                0 <= i < workers.len() ==> (#[trigger] workers[i]).spec_feed() == self.feeds[i]
                    && workers[i].record() == Set::<u64>::empty(),
    {
        let mut feeds = self.feeds;
        let ghost all = feeds@;
        let mut workers: Vec<FeedMonitor> = Vec::new();
        while feeds.len() > 0
            invariant
                feeds@ =~= all.skip(workers.len() as int),
                workers.len() <= all.len(),
                forall|i: int|
                    0 <= i < workers.len() ==> (#[trigger] workers[i]).spec_feed() == all[i]
                        && workers[i].record() == Set::<u64>::empty(),
            decreases feeds.len(),
        {
            let feed = feeds.remove(0);
            workers.push(FeedMonitor::from_feed(feed));
        }
        workers
    }
}

} // verus!
