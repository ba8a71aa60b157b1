//! Profiles: named, ordered lists of launch configurations with a
//! batch-launch policy.

use vstd::prelude::*;
use crate::instance::{id_text, is_random_id, random_id, InstanceConfig, Timestamp};
use crate::text::hyphenated_text;

verus! {

/// Unique identifier of a profile, drawn at random when it is created.
#[derive(Debug, Clone, Copy, PartialEq, Eq, Hash, Structural)]
pub struct ProfileId(pub u128);

impl ProfileId {
    /// A fresh random identifier.
    pub fn new() -> (id: Self)
        ensures
            is_random_id(id.0),
    {
        ProfileId(random_id())
    }

    /// The identifier in its canonical hyphenated form.
    pub fn to_text(&self) -> (text: String)
        ensures
            text@ == hyphenated_text(self.0),
    {
        id_text(self.0)
    }
}

/// Milliseconds between staggered launches unless the profile says
/// otherwise.
pub const DEFAULT_LAUNCH_DELAY_MS: u32 = 1000;

/// A saved profile: the configurations to launch together, and how.
#[derive(Debug)]
pub struct Profile {
    /// Unique identifier.
    pub id: ProfileId,
    /// Display name.
    pub name: String,
    /// Description.
    pub description: String,
    /// Category.
    pub category: Option<String>,
    /// The configurations to launch, in launch order.
    pub instances: Vec<InstanceConfig>,
    /// Whether launches wait for each other by `launch_delay_ms`.
    pub staggered_launch: bool,
    /// Delay between two launches in milliseconds.
    pub launch_delay_ms: u32,
    /// When the profile was created.
    pub created_at: Timestamp,
    /// When the profile was last modified.
    pub modified_at: Timestamp,
    /// When the profile was last launched.
    pub last_used_at: Option<Timestamp>,
    /// How often the profile was launched; stays at its maximum once there.
    pub launch_count: u32,
    /// Whether the profile is a favourite.
    pub is_favorite: bool,
    /// Path of a custom icon.
    pub icon_path: Option<String>,
    /// Tags for organisation, each at most once.
    pub tags: Vec<String>,
}

/// The position of the first tag equal to `tag`, or the number of tags if
/// there is none.
pub open spec fn tag_position(tags: Seq<Seq<char>>, tag: Seq<char>) -> int
    decreases tags.len(),
{
    if tags.len() == 0 {
        0
    } else if tags[0] == tag {
        0
    } else {
        1 + tag_position(tags.drop_first(), tag)
    }
}

/// `tag_position` stays within the list, points at `tag` where it points at
/// anything, and passes over no tag equal to `tag`.
pub proof fn lemma_tag_position(tags: Seq<Seq<char>>, tag: Seq<char>)
    ensures
        0 <= tag_position(tags, tag) <= tags.len(),
        tag_position(tags, tag) < tags.len() ==> tags[tag_position(tags, tag)] == tag,
        forall|k: int| 0 <= k < tag_position(tags, tag) ==> tags[k] != tag,
        tag_position(tags, tag) == tags.len() <==> !tags.contains(tag),
    decreases tags.len(),
{
    if tags.len() > 0 && tags[0] != tag {
        let rest = tags.drop_first();
        lemma_tag_position(rest, tag);
        assert forall|k: int| 0 <= k < tag_position(tags, tag) implies tags[k] != tag by {
            if k > 0 {
                assert(rest[k - 1] == tags[k]);
            }
        }
        if rest.contains(tag) {
            let k = choose|k: int| 0 <= k < rest.len() && rest[k] == tag;
            assert(tags[k + 1] == tag);
        }
        if tags.contains(tag) {
            let k = choose|k: int| 0 <= k < tags.len() && tags[k] == tag;
            assert(rest[k - 1] == tag);
        }
    } else if tags.len() > 0 {
        assert(tags[0] == tag);
    }
}

impl Profile {
    /// A new, empty profile under a fresh identifier, created now: not
    /// staggered, never used, no favourite.
    pub fn new(name: String) -> (r: Self)
        ensures
            r.name == name,
            r.description@.len() == 0,
            r.category is None,
            r.instances@.len() == 0,
            !r.staggered_launch,
            r.launch_delay_ms == DEFAULT_LAUNCH_DELAY_MS,
            r.modified_at == r.created_at,
            r.last_used_at is None,
            r.launch_count == 0,
            !r.is_favorite,
            r.icon_path is None,
            r.tags@.len() == 0,
            is_random_id(r.id.0),
    {
        let now = Timestamp::now();
        Profile {
            id: ProfileId::new(),
            name,
            description: String::new(),
            category: None,
            instances: Vec::new(),
            staggered_launch: false,
            launch_delay_ms: DEFAULT_LAUNCH_DELAY_MS,
            created_at: now,
            modified_at: now,
            last_used_at: None,
            launch_count: 0,
            is_favorite: false,
            icon_path: None,
            tags: Vec::new(),
        }
    }

    /// Appends a configuration to the launch list.
    pub fn add_instance(&mut self, config: InstanceConfig)
        ensures
            final(self).instances@ == old(self).instances@.push(config),
            *final(self) == (Profile {
                instances: final(self).instances,
                modified_at: final(self).modified_at,
                ..*old(self)
            }),
    {
        self.instances.push(config);
        self.modified_at = Timestamp::now();
    }

    /// Takes the configuration at `index` out of the launch list. An index
    /// past the end takes nothing and changes nothing.
    pub fn remove_instance(&mut self, index: usize) -> (r: Option<InstanceConfig>)
        ensures
            index < old(self).instances@.len() ==> r == Some(old(self).instances@[index as int])
                && final(self).instances@ == old(self).instances@.remove(index as int)
                && *final(self) == (Profile {
                instances: final(self).instances,
                modified_at: final(self).modified_at,
                ..*old(self)
            }),
            index >= old(self).instances@.len() ==> r is None && *final(self) == *old(self),
    {
        if index < self.instances.len() {
            self.modified_at = Timestamp::now();
            Some(self.instances.remove(index))
        } else {
            None
        }
    }

    /// Records a launch of the profile at the time `now`.
    pub fn mark_used_at(&mut self, now: Timestamp)
        ensures
            *final(self) == (Profile {
                last_used_at: Some(now),
                launch_count: if old(self).launch_count == u32::MAX {
                    u32::MAX
                } else {
                    (old(self).launch_count + 1) as u32
                },
                ..*old(self)
            }),
    {
        self.last_used_at = Some(now);
        if self.launch_count < u32::MAX {
            self.launch_count = self.launch_count + 1;
        }
    }

    /// Records a launch of the profile at the current time.
    pub fn mark_used(&mut self)
        ensures
            final(self).last_used_at is Some,
            *final(self) == (Profile {
                last_used_at: final(self).last_used_at,
                launch_count: if old(self).launch_count == u32::MAX {
                    u32::MAX
                } else {
                    (old(self).launch_count + 1) as u32
                },
                ..*old(self)
            }),
    {
        self.mark_used_at(Timestamp::now());
    }

    /// Records a modification at the current time.
    pub fn mark_modified(&mut self)
        ensures
            *final(self) == (Profile { modified_at: final(self).modified_at, ..*old(self) }),
            final(self).modified_at.secs >= 0,
            final(self).modified_at.nanos < 1_000_000_000,
    {
        self.mark_modified_at(Timestamp::now());
    }

    /// Records a modification at the time `now`: the time of the last
    /// modification becomes `now`, and nothing else changes.
    pub fn mark_modified_at(&mut self, now: Timestamp)
        ensures
            *final(self) == (Profile { modified_at: now, ..*old(self) }),
    {
        self.modified_at = now;
    }

    /// Makes a favourite of the profile, or an ordinary profile of a
    /// favourite.
    pub fn toggle_favorite(&mut self)
        ensures
            *final(self) == (Profile {
                is_favorite: !old(self).is_favorite,
                modified_at: final(self).modified_at,
                ..*old(self)
            }),
    {
        self.is_favorite = !self.is_favorite;
        self.modified_at = Timestamp::now();
    }

    /// Number of configurations in the launch list.
    pub fn instance_count(&self) -> (r: usize)
        ensures
            r == self.instances@.len(),
    {
        self.instances.len()
    }

    /// Whether the launch list is empty.
    pub fn is_empty(&self) -> (r: bool)
        ensures
            r == (self.instances@.len() == 0),
    {
        self.instances.len() == 0
    }

    /// Finds the first tag equal to `tag`.
    fn find_tag(&self, tag: &String) -> (r: usize)
        ensures
            r == tag_position(self.tags.deep_view(), tag@),
            r <= self.tags@.len(),
    {
        let ghost all = self.tags.deep_view();
        let mut i: usize = 0;
        assert(all.skip(0) =~= all);
        while i < self.tags.len()
            invariant
                i <= self.tags.len(),
                all == self.tags.deep_view(),
                tag_position(all, tag@) == i + tag_position(all.skip(i as int), tag@),
            decreases self.tags.len() - i,
        {
            proof {
                assert(all.skip(i as int)[0] == self.tags[i as int]@);
                assert(all.skip(i as int).drop_first() =~= all.skip(i + 1));
            }
            if self.tags[i] == *tag {
                return i;
            }
            i += 1;
        }
        proof {
            assert(all.skip(i as int).len() == 0);
        }
        i
    }

    /// Adds a tag unless the profile has it already.
    pub fn add_tag(&mut self, tag: String)
        ensures
            old(self).tags.deep_view().contains(tag@) ==> *final(self) == *old(self),
            !old(self).tags.deep_view().contains(tag@) ==> final(self).tags@ == old(
                self,
            ).tags@.push(tag) && *final(self) == (Profile {
                tags: final(self).tags,
                modified_at: final(self).modified_at,
                ..*old(self)
            }),
    {
        proof {
            lemma_tag_position(self.tags.deep_view(), tag@);
        }
        if self.find_tag(&tag) == self.tags.len() {
            self.tags.push(tag);
            self.modified_at = Timestamp::now();
        }
    }

    /// Removes the first tag equal to `tag`, if there is one.
    pub fn remove_tag(&mut self, tag: &str)
        ensures
            !old(self).tags.deep_view().contains(tag@) ==> *final(self) == *old(self),
            old(self).tags.deep_view().contains(tag@) ==> final(self).tags@ == old(
                self,
            ).tags@.remove(tag_position(old(self).tags.deep_view(), tag@)) && *final(self)
                == (Profile {
                tags: final(self).tags,
                modified_at: final(self).modified_at,
                ..*old(self)
            }),
    {
        proof {
            lemma_tag_position(self.tags.deep_view(), tag@);
        }
        let wanted = String::from_str(tag);
        let at = self.find_tag(&wanted);
        if at < self.tags.len() {
            self.tags.remove(at);
            self.modified_at = Timestamp::now();
        }
    }
}

} // verus!
