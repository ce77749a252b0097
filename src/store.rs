//! The session store: one keyspace per machine, each mapping a
//! conversation to its state; a missing entry stands for the initial state.
use vstd::prelude::*;
use std::collections::HashMap;
use crate::flow::{Awaiting, MenuState, RegState, Session, TopState};

verus! {

broadcast use vstd::std_specs::hash::group_hash_axioms;

/// A conversation: the chat in which it takes place.
pub type ConversationId = i64;

/// The contents of a store, one map per machine.
pub struct StoreModel {
    pub tops: Map<ConversationId, TopState>,
    pub regs: Map<ConversationId, RegState>,
    pub menus: Map<ConversationId, MenuState>,
}

impl StoreModel {
    pub open spec fn top_at(self, c: ConversationId) -> TopState {
        if self.tops.contains_key(c) {
            self.tops[c]
        } else {
            TopState::Start
        }
    }

    pub open spec fn reg_at(self, c: ConversationId) -> RegState {
        if self.regs.contains_key(c) {
            self.regs[c]
        } else {
            RegState::Invited
        }
    }

    pub open spec fn menu_at(self, c: ConversationId) -> MenuState {
        if self.menus.contains_key(c) {
            self.menus[c]
        } else {
            MenuState::Init
        }
    }

    /// The states of conversation `c`, with nothing awaited.
    pub open spec fn session_at(self, c: ConversationId) -> Session {
        Session {
            top: self.top_at(c),
            reg: self.reg_at(c),
            menu: self.menu_at(c),
            awaiting: Awaiting::Idle,
        }
    }

    /// The store after the states of `s` are written for conversation `c`.
    pub open spec fn saved(self, c: ConversationId, s: Session) -> StoreModel {
        StoreModel {
            tops: self.tops.insert(c, s.top),
            regs: self.regs.insert(c, s.reg),
            menus: self.menus.insert(c, s.menu),
        }
    }
}

/// The states of every conversation in progress, held in memory.
pub struct SessionStore {
    tops: HashMap<ConversationId, TopState>,
    regs: HashMap<ConversationId, RegState>,
    menus: HashMap<ConversationId, MenuState>,
}

impl View for SessionStore {
    type V = StoreModel;

    closed spec fn view(&self) -> StoreModel {
        StoreModel { tops: self.tops@, regs: self.regs@, menus: self.menus@ }
    }
}

impl RegState {
    /// A copy of the state, with its collected fields.
    pub fn duplicate(&self) -> (r: RegState)
        ensures
            r == *self,
    {
        match self {
            RegState::Invited => RegState::Invited,
            RegState::AwaitingFirstName => RegState::AwaitingFirstName,
            RegState::AwaitingLastName { first_name } => RegState::AwaitingLastName {
                first_name: first_name.clone(),
            },
            RegState::AwaitingPhone { first_name, last_name } => RegState::AwaitingPhone {
                first_name: first_name.clone(),
                last_name: last_name.clone(),
            },
        }
    }
}

impl SessionStore {
    /// A store in which every conversation is in its initial states.
    pub fn new() -> (r: SessionStore)
        ensures
            r@.tops == Map::<ConversationId, TopState>::empty(),
            r@.regs == Map::<ConversationId, RegState>::empty(),
            r@.menus == Map::<ConversationId, MenuState>::empty(),
    {
        SessionStore { tops: HashMap::new(), regs: HashMap::new(), menus: HashMap::new() }
    }

    pub fn get_top(&self, c: ConversationId) -> (r: TopState)
        ensures
            r == self@.top_at(c),
    {
        match self.tops.get(&c) {
            Some(t) => *t,
            None => TopState::Start,
        }
    }

    pub fn set_top(&mut self, c: ConversationId, t: TopState)
        ensures
            final(self)@ == (StoreModel { tops: old(self)@.tops.insert(c, t), ..old(self)@ }),
    {
        self.tops.insert(c, t);
    }

    pub fn clear_top(&mut self, c: ConversationId)
        ensures
            final(self)@ == (StoreModel { tops: old(self)@.tops.remove(c), ..old(self)@ }),
    {
        self.tops.remove(&c);
    }

    pub fn get_registration(&self, c: ConversationId) -> (r: RegState)
        ensures
            r == self@.reg_at(c),
    {
        match self.regs.get(&c) {
            Some(t) => t.duplicate(),
            None => RegState::Invited,
        }
    }

    pub fn set_registration(&mut self, c: ConversationId, t: RegState)
        ensures
            final(self)@ == (StoreModel { regs: old(self)@.regs.insert(c, t), ..old(self)@ }),
    {
        self.regs.insert(c, t);
    }

    pub fn clear_registration(&mut self, c: ConversationId)
        ensures
            final(self)@ == (StoreModel { regs: old(self)@.regs.remove(c), ..old(self)@ }),
    {
        self.regs.remove(&c);
    }

    pub fn get_menu(&self, c: ConversationId) -> (r: MenuState)
        ensures
            r == self@.menu_at(c),
    {
        match self.menus.get(&c) {
            Some(t) => *t,
            None => MenuState::Init,
        }
    }

    pub fn set_menu(&mut self, c: ConversationId, t: MenuState)
        ensures
            final(self)@ == (StoreModel { menus: old(self)@.menus.insert(c, t), ..old(self)@ }),
    {
        self.menus.insert(c, t);
    }

    pub fn clear_menu(&mut self, c: ConversationId)
        ensures
            final(self)@ == (StoreModel { menus: old(self)@.menus.remove(c), ..old(self)@ }),
    {
        self.menus.remove(&c);
    }

    /// The states of a conversation, to start a turn with.
    pub fn load(&self, c: ConversationId) -> (r: Session)
        ensures
            r == self@.session_at(c),
    {
        Session {
            top: self.get_top(c),
            reg: self.get_registration(c),
            menu: self.get_menu(c),
            awaiting: Awaiting::Idle,
        }
    }

    /// Writes the states that a turn ended in.
    pub fn save(&mut self, c: ConversationId, s: Session)
        ensures
            final(self)@ == old(self)@.saved(c, s),
    {
        let Session { top, reg, menu, awaiting } = s;
        self.set_top(c, top);
        self.set_registration(c, reg);
        self.set_menu(c, menu);
    }
}

} // verus!
