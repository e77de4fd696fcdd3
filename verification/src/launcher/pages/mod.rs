//! Navigation between the launcher's pages, with a history to go back.

use vstd::prelude::*;

pub mod config;

verus! {

/// A page of the launcher.
#[derive(Clone, Copy, Debug, PartialEq, Eq, Structural)]
pub enum Route {
    Play,
    Login,
    Config,
}

/// A current value and the values it replaced, most recent last.
#[derive(Clone, Debug)]
pub struct HistoryVec<T> {
    pub history: Vec<T>,
    pub current: T,
}

/// `set` on (history, current): the current value goes onto the history.
pub open spec fn set_model<T>(history: Seq<T>, current: T, val: T) -> (Seq<T>, T) {
    (history.push(current), val)
}

/// `revert` on (history, current): the most recent earlier value comes
/// back and the replaced current value is returned; with no history,
/// nothing changes and nothing is returned.
pub open spec fn revert_model<T>(history: Seq<T>, current: T) -> (Seq<T>, T, Option<T>) {
    if history.len() == 0 {
        (history, current, None)
    } else {
        (history.drop_last(), history.last(), Some(current))
    }
}

impl<T> HistoryVec<T> {
    /// A history-less value.
    pub fn new(val: T) -> (r: Self)
        ensures
            r.history@ == Seq::<T>::empty(),
            r.current == val,
    {
        HistoryVec { history: Vec::new(), current: val }
    }

    /// The current value.
    pub fn get(&self) -> (r: &T)
        ensures
            *r == self.current,
    {
        &self.current
    }

    /// Replaces the current value, keeping the old one in the history.
    pub fn set(&mut self, val: T)
        ensures
            (final(self).history@, final(self).current) == set_model(
                old(self).history@,
                old(self).current,
                val,
            ),
    {
        let mut v = val;
        std::mem::swap(&mut self.current, &mut v);
        self.history.push(v);
    }

    /// The history and the current value.
    pub fn history(&self) -> (r: (&[T], &T))
        ensures
            r.0@ == self.history@,
            *r.1 == self.current,
    {
        (self.history.as_slice(), &self.current)
    }

    /// Goes back to the most recent earlier value and returns the value it
    /// replaces; with no history, changes nothing and returns `None`.
    pub fn revert(&mut self) -> (r: Option<T>)
        ensures
            (final(self).history@, final(self).current, r) == revert_model(
                old(self).history@,
                old(self).current,
            ),
    {
        match self.history.pop() {
            Some(val) => {
                let mut v = val;
                std::mem::swap(&mut self.current, &mut v);
                Some(v)
            },
            None => None,
        }
    }
}

/// Going back right after a `set` restores the history and the current
/// value as they were, and returns the value that was set.
pub proof fn lemma_revert_undoes_set<T>(history: Seq<T>, current: T, val: T)
    ensures
        ({
            let (h, c) = set_model(history, current, val);
            revert_model(h, c)
        }) == (history, current, Some(val)),
{
    assert(history.push(current).drop_last() =~= history);
}

/// Each `set` lengthens the history by one and each `revert` that returns a
/// value shortens it by one, so the history always holds the values that
/// were set and not gone back from.
pub proof fn lemma_history_length<T>(history: Seq<T>, current: T, val: T)
    ensures
        set_model(history, current, val).0.len() == history.len() + 1,
        revert_model(history, current).2 is Some ==> revert_model(history, current).0.len()
            == history.len() - 1,
        revert_model(history, current).2 is None ==> history.len() == 0,
{
}

/// The settings button: from the settings page it goes back, from any
/// other page it opens the settings.
pub fn toggle_settings(router: &mut HistoryVec<Route>)
    ensures
        old(router).current == Route::Config ==> (final(router).history@, final(router).current)
            == ({
            let r = revert_model(old(router).history@, old(router).current);
            (r.0, r.1)
        }),
        old(router).current != Route::Config ==> (final(router).history@, final(router).current)
            == set_model(old(router).history@, old(router).current, Route::Config),
{
    if *router.get() == Route::Config {
        router.revert();
    } else {
        router.set(Route::Config);
    }
}

/// The page to show: the play page needs a signed-in account, and without
/// one the router goes back and no page is shown this time.
pub fn page_for(router: &mut HistoryVec<Route>, signed_in: bool) -> (r: Option<Route>)
    ensures
        old(router).current == Route::Play && !signed_in ==> r is None && (
        final(router).history@,
        final(router).current,
        ) == ({
            let m = revert_model(old(router).history@, old(router).current);
            (m.0, m.1)
        }),
        !(old(router).current == Route::Play && !signed_in) ==> r == Some(old(router).current)
            && final(router).history@ == old(router).history@ && final(router).current == old(
            router,
        ).current,
{
    let page = *router.get();
    if page == Route::Play && !signed_in {
        router.revert();
        None
    } else {
        Some(page)
    }
}

} // verus!
