use crate::date::Date;
use crate::recipe::Recipe;
use vstd::prelude::*;

verus! {

/// How long a fetched weekly recipe stays valid: one hour, in milliseconds.
pub const CACHE_EXPIRATION: u64 = 3_600_000;

/// Whether a cache last filled at `last_checked` has expired at `now`: more
/// than an hour has passed.
pub open spec fn expired(last_checked: Date, now: Date) -> bool {
    last_checked.0 + CACHE_EXPIRATION < now.0
}

/// The cached weekly recipe and when it was fetched. The fetch itself is
/// done by the caller, which hands its outcome to `update`.
#[derive(Clone, Debug, PartialEq, Eq)]
pub struct WeeklyRecipeGetter {
    /// When the weekly recipe was last fetched.
    pub last_checked: Date,
    /// The weekly recipe, once fetched.
    pub recipe: Option<Recipe>,
}

impl WeeklyRecipeGetter {
    /// An empty cache, last filled at the epoch.
    pub fn new() -> (r: WeeklyRecipeGetter)
        ensures
            r.last_checked.0 == 0,
            r.recipe is None,
    {
        WeeklyRecipeGetter { last_checked: Date(0), recipe: None }
    }

    /// Whether the cache has expired at `now`.
    pub fn is_cache_expired(&self, now: Date) -> (r: bool)
        ensures
            r == expired(self.last_checked, now),
    {
        (self.last_checked.0 as u128) + (CACHE_EXPIRATION as u128) < now.0 as u128
    }

    /// The cached recipe, where the cache is valid at `now` and holds one.
    /// Where this is `None` the caller fetches and calls `update`.
    pub fn get_recipe(&self, now: Date) -> (r: Option<&Recipe>)
        ensures
            expired(self.last_checked, now) ==> r is None,
            !expired(self.last_checked, now) ==> (r is Some <==> self.recipe is Some),
            r matches Some(w) ==> *w == self.recipe->0,
    {
        if self.is_cache_expired(now) {
            None
        } else {
            self.recipe.as_ref()
        }
    }

    /// Records the outcome of fetching the weekly recipe at `now`: a recipe
    /// found is cached with `now` as its time; otherwise the cache is left
    /// as it was and the error says why.
    pub fn update(&mut self, fetched: Result<Option<Recipe>, ()>, now: Date) -> (r: Result<(), String>)
        ensures
            fetched matches Ok(Some(w)) ==> r is Ok && *final(self) == (WeeklyRecipeGetter {
                last_checked: now,
                recipe: Some(w),
            }),
            fetched matches Ok(None) ==> r is Err && r->Err_0@ == "No weekly recipe found in database"@
                && *final(self) == *old(self),
            fetched is Err ==> r is Err && r->Err_0@ == "Error getting weekly recipe from database"@
                && *final(self) == *old(self),
    {
        match fetched {
            Ok(Some(w)) => {
                self.recipe = Some(w);
                self.last_checked = now;
                Ok(())
            },
            Ok(None) => Err("No weekly recipe found in database".to_string()),
            Err(()) => Err("Error getting weekly recipe from database".to_string()),
        }
    }

    /// The answer to a request for the weekly recipe once the cache has been
    /// refreshed: the error of the refresh, or the recipe now cached.
    pub fn get_after_update(&self, updated: Result<(), String>, now: Date) -> (r: Result<&Recipe, String>)
        ensures
            updated matches Err(e) ==> r is Err && r->Err_0 == e,
            updated is Ok && !expired(self.last_checked, now) && self.recipe is Some
                ==> r is Ok && *r->Ok_0 == self.recipe->0,
            updated is Ok && (expired(self.last_checked, now) || self.recipe is None)
                ==> r is Err && r->Err_0@ == "Weekly recipe was not found."@,
    {
        match updated {
            Err(e) => Err(e),
            Ok(()) => match self.get_recipe(now) {
                Some(w) => Ok(w),
                None => Err("Weekly recipe was not found.".to_string()),
            },
        }
    }
}

} // verus!
