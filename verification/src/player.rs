//! The local player's identity state and the cross-player metadata
//! cache the consumer keeps while the process runs.
use vstd::prelude::*;
use vstd::string::StringExecFns;

use std::collections::HashMap;

use crate::text::i64_to_string;
use crate::text::spec_dec_signed;

verus! {

/// The local player's identity, as far as it is known.
#[derive(Debug, Clone)]
pub struct PlayerState {
    /// The account identifier, once seen.
    pub account_id: Option<String>,
    /// The player's numeric id, once seen.
    pub uid: Option<i64>,
    /// The server line (shard), once seen.
    pub line_id: Option<u32>,
}

impl PlayerState {
    /// A state with nothing known yet.
    pub fn new() -> (r: PlayerState)
        ensures
            r.account_id is None,
            r.uid is None,
            r.line_id is None,
    {
        PlayerState { account_id: None, uid: None, line_id: None }
    }

    /// Record the account identity.
    pub fn set_account_info(&mut self, account_id: String, uid: i64)
        ensures
            final(self).account_id matches Some(a) && a@ == account_id@,
            final(self).uid == Some(uid),
            final(self).line_id == old(self).line_id,
    {
        self.account_id = Some(account_id);
        self.uid = Some(uid);
    }

    /// Record the server line.
    pub fn set_line_id(&mut self, line_id: u32)
        ensures
            final(self).line_id == Some(line_id),
            final(self).account_id == old(self).account_id,
            final(self).uid == old(self).uid,
    {
        self.line_id = Some(line_id);
    }

    /// The server line, or zero while unknown.
    pub fn get_line_id(&self) -> (r: i32)
        ensures
            r == match self.line_id {
                Some(id) => id as i32,
                None => 0i32,
            },
    {
        match self.line_id {
            Some(id) =>
            #[verifier::truncate]
            (id as i32),
            None => 0,
        }
    }

    /// The account identifier, if known.
    pub fn get_account_id(&self) -> (r: Option<String>)
        ensures
            match r {
                Some(a) => self.account_id matches Some(b) && a@ == b@,
                None => self.account_id is None,
            },
    {
        match &self.account_id {
            Some(a) => Some(a.clone()),
            None => None,
        }
    }

    /// The player's numeric id, if known.
    pub fn get_uid(&self) -> (r: Option<i64>)
        ensures
            r == self.uid,
    {
        self.uid
    }
}

impl Default for PlayerState {
    /// A state with nothing known yet.
    fn default() -> (r: PlayerState)
        ensures
            r.account_id is None,
            r.uid is None,
            r.line_id is None,
    {
        PlayerState::new()
    }
}

/// What the cache knows about one player.
#[derive(Debug, Clone)]
pub struct PlayerMetadata {
    /// The player's name, once seen.
    pub name: Option<String>,
    /// The player's class, once seen.
    pub class_id: Option<i32>,
    /// The player's ability score, once seen.
    pub ability_score: Option<i32>,
}

impl Default for PlayerMetadata {
    /// Metadata with nothing known yet.
    fn default() -> (r: PlayerMetadata)
        ensures
            r.name is None,
            r.class_id is None,
            r.ability_score is None,
    {
        PlayerMetadata { name: None, class_id: None, ability_score: None }
    }
}

/// Player metadata keyed by player id, kept until the process ends. A
/// single writer owns it; readers are handed copies.
pub struct PlayerInfoCache {
    cache: HashMap<i64, PlayerMetadata>,
}

impl PlayerInfoCache {
    /// The cached metadata by player id.
    pub closed spec fn view(&self) -> Map<i64, PlayerMetadata> {
        self.cache@
    }

    /// An empty cache.
    pub fn new() -> (r: PlayerInfoCache)
        ensures
            r@ == Map::<i64, PlayerMetadata>::empty(),
    {
        PlayerInfoCache { cache: HashMap::new() }
    }

    /// The metadata entry for `uid`, or an empty one.
    fn entry_or_default(&self, uid: i64) -> (r: PlayerMetadata)
        ensures
            self@.contains_key(uid) ==> {
                let m = self@[uid];
                &&& r.name == m.name
                &&& r.class_id == m.class_id
                &&& r.ability_score == m.ability_score
            },
            !self@.contains_key(uid) ==> r.name is None && r.class_id is None && r.ability_score
                is None,
    {
        match self.cache.get(&uid) {
            Some(m) => PlayerMetadata {
                name: match &m.name {
                    Some(n) => Some(n.clone()),
                    None => None,
                },
                class_id: m.class_id,
                ability_score: m.ability_score,
            },
            None => PlayerMetadata { name: None, class_id: None, ability_score: None },
        }
    }

    /// Record a player's name; an empty name is ignored.
    pub fn set_name(&mut self, uid: i64, name: String)
        ensures
            name@.len() == 0 ==> final(self)@ == old(self)@,
            name@.len() != 0 ==> {
                &&& final(self)@.dom() == old(self)@.dom().insert(uid)
                &&& final(self)@[uid].name matches Some(n) && n@ == name@
                &&& final(self)@[uid].class_id == (if old(self)@.contains_key(uid) {
                    old(self)@[uid].class_id
                } else {
                    None::<i32>
                })
                &&& final(self)@[uid].ability_score == (if old(self)@.contains_key(uid) {
                    old(self)@[uid].ability_score
                } else {
                    None::<i32>
                })
                &&& forall|k: i64|
                    k != uid && old(self)@.contains_key(k) ==> final(self)@[k] == old(self)@[k]
            },
    {
        if name.as_str().is_empty() {
            return ;
        }
        let mut entry = self.entry_or_default(uid);
        entry.name = Some(name);
        self.cache.insert(uid, entry);
        proof {
            assert(self@.dom() =~= old(self)@.dom().insert(uid));
        }
    }

    /// Record a player's class; a non-positive class id is ignored.
    pub fn set_class(&mut self, uid: i64, class_id: i32)
        ensures
            class_id <= 0 ==> final(self)@ == old(self)@,
            class_id > 0 ==> {
                &&& final(self)@.dom() == old(self)@.dom().insert(uid)
                &&& final(self)@[uid].class_id == Some(class_id)
                &&& final(self)@[uid].name == (if old(self)@.contains_key(uid) {
                    old(self)@[uid].name
                } else {
                    None::<String>
                })
                &&& final(self)@[uid].ability_score == (if old(self)@.contains_key(uid) {
                    old(self)@[uid].ability_score
                } else {
                    None::<i32>
                })
                &&& forall|k: i64|
                    k != uid && old(self)@.contains_key(k) ==> final(self)@[k] == old(self)@[k]
            },
    {
        if class_id <= 0 {
            return ;
        }
        let mut entry = self.entry_or_default(uid);
        entry.class_id = Some(class_id);
        self.cache.insert(uid, entry);
        proof {
            assert(self@.dom() =~= old(self)@.dom().insert(uid));
            if old(self)@.contains_key(uid) {
                assert(self@[uid].name == old(self)@[uid].name);
            }
        }
    }

    /// Record a player's ability score; a non-positive score is ignored.
    pub fn set_ability_score(&mut self, uid: i64, ability_score: i32)
        ensures
            ability_score <= 0 ==> final(self)@ == old(self)@,
            ability_score > 0 ==> {
                &&& final(self)@.dom() == old(self)@.dom().insert(uid)
                &&& final(self)@[uid].ability_score == Some(ability_score)
                &&& final(self)@[uid].name == (if old(self)@.contains_key(uid) {
                    old(self)@[uid].name
                } else {
                    None::<String>
                })
                &&& final(self)@[uid].class_id == (if old(self)@.contains_key(uid) {
                    old(self)@[uid].class_id
                } else {
                    None::<i32>
                })
                &&& forall|k: i64|
                    k != uid && old(self)@.contains_key(k) ==> final(self)@[k] == old(self)@[k]
            },
    {
        if ability_score <= 0 {
            return ;
        }
        let mut entry = self.entry_or_default(uid);
        entry.ability_score = Some(ability_score);
        self.cache.insert(uid, entry);
        proof {
            assert(self@.dom() =~= old(self)@.dom().insert(uid));
            if old(self)@.contains_key(uid) {
                assert(self@[uid].name == old(self)@[uid].name);
            }
        }
    }

    /// The name recorded for a player, if any.
    pub fn get_name(&self, uid: i64) -> (r: Option<String>)
        ensures
            match r {
                Some(n) => self@.contains_key(uid) && (self@[uid].name matches Some(m) && n@ == m@),
                None => !self@.contains_key(uid) || self@[uid].name is None,
            },
    {
        match self.cache.get(&uid) {
            Some(m) => match &m.name {
                Some(n) => Some(n.clone()),
                None => None,
            },
            None => None,
        }
    }

    /// The name recorded for a player, or "Player " and the id where none
    /// (or only an empty one) is recorded.
    pub fn get_name_or_default(&self, uid: i64) -> (r: String)
        ensures
            ({
                let known = self@.contains_key(uid) && (self@[uid].name matches Some(n)
                    && n@.len() != 0);
                if known {
                    r@ == self@[uid].name->0@
                } else {
                    r@ == "Player "@ + spec_dec_signed(uid as int)
                }
            }),
    {
        match self.get_name(uid) {
            Some(n) => {
                if !n.as_str().is_empty() {
                    return n;
                }
            },
            None => {},
        }
        String::from_str("Player ").concat(i64_to_string(uid).as_str())
    }

    /// A copy of what the cache knows about a player; empty where
    /// nothing is recorded.
    pub fn get(&self, uid: i64) -> (r: PlayerMetadata)
        ensures
            self@.contains_key(uid) ==> {
                let m = self@[uid];
                &&& r.name == m.name
                &&& r.class_id == m.class_id
                &&& r.ability_score == m.ability_score
            },
            !self@.contains_key(uid) ==> r.name is None && r.class_id is None && r.ability_score
                is None,
    {
        self.entry_or_default(uid)
    }
}

impl Default for PlayerInfoCache {
    /// An empty cache.
    fn default() -> (r: PlayerInfoCache)
        ensures
            r@ == Map::<i64, PlayerMetadata>::empty(),
    {
        PlayerInfoCache::new()
    }
}

} // verus!
