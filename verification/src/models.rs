//! Choosing models: what a switch of model does once it is known whether a
//! key exists for its provider, the list of recent models, and the
//! favourites.

use vstd::prelude::*;
use vstd::string::StringExecFns;
use crate::chat::{concat2, concat3};
use crate::state::{App, Part, Chat, Menus, ModelInfo, unchanged_except, notice_added};
use crate::text::{lowercase, to_lowercase};

verus! {

/// Whether two models are the same: same name and same provider.
pub open spec fn same_model(a: ModelInfo, b: ModelInfo) -> bool {
    a.name@ == b.name@ && a.provider_id@ == b.provider_id@
}

/// Whether the two models are the same (see `same_model`).
pub fn is_same_model(a: &ModelInfo, b: &ModelInfo) -> (r: bool)
    ensures
        r == same_model(*a, *b),
{
    a.name == b.name && a.provider_id == b.provider_id
}

/// The models of `list` other than `m`, in order.
pub open spec fn without_model(list: Seq<ModelInfo>, m: ModelInfo) -> Seq<ModelInfo> {
    list.filter(|x: ModelInfo| !same_model(x, m))
}

/// The recent models after `m` is used: `m` first, then the others that
/// were recent, at most three in all.
pub open spec fn recent_after(recent: Seq<ModelInfo>, m: ModelInfo) -> Seq<ModelInfo> {
    let l = seq![m] + without_model(recent, m);
    if l.len() > 3 {
        l.take(3)
    } else {
        l
    }
}

/// The models of `list` other than `m` (see `without_model`).
fn models_without(list: &Vec<ModelInfo>, m: &ModelInfo) -> (r: Vec<ModelInfo>)
    ensures
        r@ == without_model(list@, *m),
{
    let mut r: Vec<ModelInfo> = Vec::new();
    let mut i: usize = 0;
    let ghost p = |x: ModelInfo| !same_model(x, *m);
    assert(list@.take(0) =~= Seq::<ModelInfo>::empty());
    while i < list.len()
        invariant
            i <= list@.len(),
            p == (|x: ModelInfo| !same_model(x, *m)),
            r@ == list@.take(i as int).filter(p),
        decreases list.len() - i,
    {
        proof {
            assert(list@.take(i + 1) =~= list@.take(i as int).push(list@[i as int]));
            list@.take(i as int).lemma_filter_push(list@[i as int], p);
        }
        if !is_same_model(&list[i], m) {
            r.push(list[i].duplicate());
        }
        i = i + 1;
    }
    assert(list@.take(list@.len() as int) =~= list@);
    r
}

/// Records that `m` was used (see `recent_after`).
pub fn remember_recent(recent: &mut Vec<ModelInfo>, m: ModelInfo)
    ensures
        final(recent)@ == recent_after(old(recent)@, m),
{
    let rest = models_without(recent, &m);
    let mut l: Vec<ModelInfo> = Vec::new();
    l.push(m);
    let mut i: usize = 0;
    let ghost first = l@;
    while i < rest.len() && l.len() < 3
        invariant
            i <= rest@.len(),
            l@.len() == i + 1,
            l@.len() <= 3,
            first.len() == 1,
            l@ == first + rest@.take(i as int),
        decreases rest.len() - i,
    {
        l.push(rest[i].duplicate());
        assert(rest@.take(i + 1) =~= rest@.take(i as int).push(rest@[i as int]));
        i = i + 1;
    }
    proof {
        let full = first + rest@;
        if i == rest@.len() {
            assert(rest@.take(i as int) =~= rest@);
            assert(l@ =~= full);
        } else {
            assert(full.take(3) =~= first + rest@.take(2));
        }
    }
    *recent = l;
}

/// The favourites after `m` is toggled: without it where it was one, else
/// with it added at the end.
pub open spec fn favorites_after(favorites: Seq<ModelInfo>, m: ModelInfo) -> Seq<ModelInfo> {
    if exists|i: int| 0 <= i < favorites.len() && same_model(#[trigger] favorites[i], m) {
        without_model(favorites, m)
    } else {
        favorites.push(m)
    }
}

/// Adds `m` to the favourites or removes it from them (see
/// `favorites_after`); `true` when it was added.
pub fn toggle_favorite(favorites: &mut Vec<ModelInfo>, m: ModelInfo) -> (added: bool)
    ensures
        final(favorites)@ == favorites_after(old(favorites)@, m),
        added == !(exists|i: int| 0 <= i < old(favorites)@.len() && same_model(#[trigger] old(favorites)@[i], m)),
{
    let mut found = false;
    let mut i: usize = 0;
    while i < favorites.len()
        invariant
            i <= favorites@.len(),
            found == (exists|j: int| 0 <= j < i && same_model(#[trigger] favorites@[j], m)),
        decreases favorites.len() - i,
    {
        if is_same_model(&favorites[i], &m) {
            found = true;
        }
        i = i + 1;
    }
    if found {
        let rest = models_without(favorites, &m);
        *favorites = rest;
        false
    } else {
        favorites.push(m);
        true
    }
}

/// Whether switching to a model of `provider_id` changes the provider: the
/// lowercased name of the current provider is not the id.
pub open spec fn changes_provider(app: App, provider_id: Seq<char>) -> bool {
    lowercase(app.chat.provider_name@) != provider_id
}

/// What the state becomes once a switch to `m` was asked for. Without a key
/// for its provider, a notice says so. With one, the model becomes the
/// current one, with the provider named `new_provider` where the provider
/// changed (see `changes_provider`), a notice tells the switch, and the model
/// menu closes.
pub open spec fn model_switch_post(pre: App, post: App, m: ModelInfo, has_key: bool, new_provider: Option<String>) -> bool {
    if !has_key {
        &&& notice_added(pre, post, "Error: No API key for "@ + m.provider_id@)
        &&& unchanged_except(pre, post, set![Part::Chat])
    } else {
        let name = match new_provider {
            Some(n) => n@,
            None => pre.chat.provider_name@,
        };
        let mid = App {
            chat: Chat {
                current_model: post.chat.current_model,
                provider_name: post.chat.provider_name,
                current_provider_id: post.chat.current_provider_id,
                ..pre.chat
            },
            ..pre
        };
        &&& post.chat.current_model@ == m.name@
        &&& post.chat.provider_name@ == name
        &&& post.chat.current_provider_id@ == (if new_provider is Some {
            m.provider_id@
        } else {
            pre.chat.current_provider_id@
        })
        &&& notice_added(mid, post, "Switched to "@ + m.name@ + " on "@ + name)
        &&& post.menus == (Menus { show_model_menu: false, ..pre.menus })
        &&& unchanged_except(pre, post, set![Part::Chat, Part::Menus])
    }
}

impl App {
    /// Whether switching to a model of `provider_id` changes the provider
    /// (see `changes_provider`).
    pub fn changes_provider_to(&self, provider_id: &String) -> (b: bool)
        ensures
            b == changes_provider(*self, provider_id@),
    {
        let low = to_lowercase(self.chat.provider_name.as_str());
        !(low == *provider_id)
    }

    /// Completes a switch to `m` (see `model_switch_post`): `has_key` says
    /// whether a key exists for its provider, and `new_provider` is the name
    /// of the new provider where the provider changed.
    pub fn finish_model_switch(&mut self, m: ModelInfo, has_key: bool, new_provider: Option<String>)
        ensures
            model_switch_post(*old(self), *final(self), m, has_key, new_provider),
            old(self).wf() ==> final(self).wf(),
    {
        if !has_key {
            self.push_system(concat2("Error: No API key for ", m.provider_id.as_str()));
            return;
        }
        match new_provider {
            Some(n) => {
                self.chat.provider_name = n;
                self.chat.current_provider_id = m.provider_id.clone();
            },
            None => {},
        }
        self.chat.current_model = m.name.clone();
        let mut notice = concat3("Switched to ", m.name.as_str(), " on ");
        notice.append(self.chat.provider_name.as_str());
        self.push_system(notice);
        self.menus.show_model_menu = false;
    }

    /// Tells that the model named `name` was added to the favourites, or
    /// removed from them.
    pub fn note_favorite(&mut self, name: &String, added: bool)
        ensures
            notice_added(
                *old(self),
                *final(self),
                if added {
                    "Added "@ + name@ + " to favorites"@
                } else {
                    "Removed "@ + name@ + " from favorites"@
                },
            ),
            unchanged_except(*old(self), *final(self), set![Part::Chat]),
            old(self).wf() ==> final(self).wf(),
    {
        let notice = if added {
            concat3("Added ", name.as_str(), " to favorites")
        } else {
            concat3("Removed ", name.as_str(), " from favorites")
        };
        self.push_system(notice);
    }
}

} // verus!
