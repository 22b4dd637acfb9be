use vstd::prelude::*;
use crate::cache::{IconCache, Key};
use crate::error::Error;
use crate::icon::Icon;
use crate::path::{cache_key, cache_key_of, extension_of, has_own_icon, is_lossy, PathInfo};
use crate::request::{complete_fetch, completed, is_usable, key_view, IconFetch, Lookup};

verus! {

/// Icons of one size, converted once per extension and then served from a
/// cache. Worth it where many icons of a fixed size are requested.
pub struct Provider<T, F> {
    icon_size: u16,
    converter: F,
    cache: IconCache<T>,
}

impl<T: Clone, F: Fn(Icon) -> T> Provider<T, F> {
    /// The size of the icons that this provider asks for.
    pub closed spec fn spec_icon_size(&self) -> u16 {
        self.icon_size
    }

    /// How this provider converts icons.
    pub closed spec fn converter(&self) -> F {
        self.converter
    }

    /// What the cache holds, by size and extension.
    pub closed spec fn cached(&self) -> Map<Key, T> {
        self.cache@
    }

    pub closed spec fn wf(&self) -> bool {
        &&& self.icon_size > 0
        &&& self.cache.wf()
        &&& forall|i: Icon| self.converter.requires((i,))
    }

    /// The icon of `path` is in the cache.
    pub open spec fn is_cached(&self, path: Seq<char>, info: PathInfo) -> bool {
        match cache_key_of(path, info) {
            Some(ext) => self.cached().contains_key((self.spec_icon_size(), ext)),
            None => false,
        }
    }

    /// How a lookup of `path` ends: an error for a path that does not exist,
    /// a clone of the cached value where there is one, else a fetch at this
    /// provider's size under the path's cache key.
    pub open spec fn looked_up(
        &self,
        path: Seq<char>,
        info: PathInfo,
        r: Result<Lookup<T>, Error>,
    ) -> bool {
        if !info.exists {
            r == Err::<Lookup<T>, Error>(Error::PathDoesNotExist)
        } else if self.is_cached(path, info) {
            r matches Ok(Lookup::Cached(v)) && cloned(
                self.cached()[(self.spec_icon_size(), cache_key_of(path, info)->Some_0)],
                v,
            )
        } else {
            r matches Ok(Lookup::Fetch(f)) && f.path@ == path && f.size == self.spec_icon_size()
                && key_view(f.key) == cache_key_of(path, info)
        }
    }

    /// A provider of icons of `icon_size` pixels, converted by `converter`.
    pub fn new(icon_size: u16, converter: F) -> (r: Result<Self, Error>)
        requires
            forall|i: Icon| converter.requires((i,)),
        ensures
            icon_size == 0 ==> (r matches Err(e) && e == Error::NullIconSize),
            icon_size > 0 ==> (r matches Ok(p) && p.wf() && p.spec_icon_size() == icon_size
                && p.converter() == converter && p.cached() == Map::<Key, T>::empty()),
    {
        if icon_size == 0 {
            return Err(Error::NullIconSize);
        }
        Ok(Provider { icon_size, converter, cache: IconCache::new() })
    }

    /// The size of the icons that this provider asks for.
    pub fn icon_size(&self) -> (r: u16)
        ensures
            r == self.spec_icon_size(),
    {
        self.icon_size
    }

    /// Looks up the icon of `path`, given what the file system says of it.
    pub fn get_file_icon(&self, path: &str, info: PathInfo) -> (r: Result<Lookup<T>, Error>)
        requires
            self.wf(),
        ensures
            self.looked_up(path@, info, r),
    {
        if !info.exists {
            return Err(Error::PathDoesNotExist);
        }
        let key = cache_key(path, &info);
        if let Some(ext) = &key {
            if let Some(v) = self.cache.get(self.icon_size, ext) {
                return Ok(Lookup::Cached(v));
            }
        }
        Ok(Lookup::Fetch(IconFetch { path: path.to_owned(), size: self.icon_size, key }))
    }

    /// Ends a fetch with the platform's answer, as `completed` states it.
    pub fn complete(&mut self, fetch: IconFetch, outcome: Option<Icon>) -> (r: Result<T, Error>)
        requires
            old(self).wf(),
        ensures
            final(self).wf(),
            final(self).spec_icon_size() == old(self).spec_icon_size(),
            final(self).converter() == old(self).converter(),
            completed(old(self).cached(), old(self).converter(), fetch, outcome, final(self).cached(), r),
    {
        complete_fetch(&mut self.cache, &self.converter, fetch, outcome)
    }

    /// Drops every cached icon.
    pub fn clear(&mut self)
        requires
            old(self).wf(),
        ensures
            final(self).wf(),
            final(self).spec_icon_size() == old(self).spec_icon_size(),
            final(self).converter() == old(self).converter(),
            final(self).cached() == Map::<Key, T>::empty(),
    {
        self.cache.clear();
    }
}

/// Two existing files of one extension share their cached icon: where the
/// first is served from the cache, so is the second, with a clone of the same
/// stored value. Directories, symbolic links, executables, files that carry
/// their own icon and extensions that are not text are left out.
pub proof fn lemma_same_extension_shares_cached_icon<T: Clone, F: Fn(Icon) -> T>(
    p: Provider<T, F>,
    path1: Seq<char>,
    info1: PathInfo,
    path2: Seq<char>,
    info2: PathInfo,
    first: Result<Lookup<T>, Error>,
    second: Result<Lookup<T>, Error>,
)
    requires
        extension_of(path1) is Some,
        extension_of(path2) == extension_of(path1),
        !has_own_icon(extension_of(path1)->Some_0),
        !is_lossy(extension_of(path1)->Some_0),
        info1.exists && !info1.is_dir && !info1.is_symlink && !info1.is_executable,
        info2.exists && !info2.is_dir && !info2.is_symlink && !info2.is_executable,
        p.looked_up(path1, info1, first),
        first is Ok && first->Ok_0 is Cached,
        p.looked_up(path2, info2, second),
    ensures
        ({
            let stored = p.cached()[(p.spec_icon_size(), extension_of(path1)->Some_0)];
            &&& second matches Ok(Lookup::Cached(v2)) && cloned(stored, v2)
            &&& first matches Ok(Lookup::Cached(v1)) && cloned(stored, v1)
        }),
{
}

/// Once the fetch for the first of two existing files of one extension
/// completes, the second is served from the cache, without asking the
/// platform, with a clone of the value that the completion stored and cloned.
/// The same paths are left out as above.
pub proof fn lemma_same_extension_served_after_fetch<T: Clone, F: Fn(Icon) -> T>(
    before: Provider<T, F>,
    after: Provider<T, F>,
    path1: Seq<char>,
    info1: PathInfo,
    path2: Seq<char>,
    info2: PathInfo,
    first: Result<Lookup<T>, Error>,
    outcome: Option<Icon>,
    done: Result<T, Error>,
    second: Result<Lookup<T>, Error>,
)
    requires
        extension_of(path1) is Some,
        extension_of(path2) == extension_of(path1),
        !has_own_icon(extension_of(path1)->Some_0),
        !is_lossy(extension_of(path1)->Some_0),
        info1.exists && !info1.is_dir && !info1.is_symlink && !info1.is_executable,
        info2.exists && !info2.is_dir && !info2.is_symlink && !info2.is_executable,
        before.looked_up(path1, info1, first),
        first is Ok && first->Ok_0 is Fetch,
        after.spec_icon_size() == before.spec_icon_size(),
        completed(before.cached(), before.converter(), first->Ok_0->Fetch_0, outcome, after.cached(), done),
        is_usable(outcome),
        after.looked_up(path2, info2, second),
    ensures
        ({
            let stored = after.cached()[(after.spec_icon_size(), extension_of(path1)->Some_0)];
            &&& done matches Ok(v1) && cloned(stored, v1)
            &&& second matches Ok(Lookup::Cached(v2)) && cloned(stored, v2)
        }),
{
}

/// After `clear`, a key that was cached is fetched from the platform once:
/// the next lookup is a fetch, and once it completes with an icon the key is
/// served from the cache again.
pub proof fn lemma_cleared_key_fetched_once<T: Clone, F: Fn(Icon) -> T>(
    before: Provider<T, F>,
    cleared: Provider<T, F>,
    after: Provider<T, F>,
    path: Seq<char>,
    info: PathInfo,
    first: Result<Lookup<T>, Error>,
    outcome: Option<Icon>,
    done: Result<T, Error>,
    second: Result<Lookup<T>, Error>,
)
    requires
        info.exists,
        before.is_cached(path, info),
        cleared.spec_icon_size() == before.spec_icon_size(),
        cleared.cached() == Map::<Key, T>::empty(),
        cleared.looked_up(path, info, first),
        after.spec_icon_size() == cleared.spec_icon_size(),
        completed(cleared.cached(), cleared.converter(), first->Ok_0->Fetch_0, outcome, after.cached(), done),
        is_usable(outcome),
        after.looked_up(path, info, second),
    ensures
        first matches Ok(Lookup::Fetch(f)) && key_view(f.key) == cache_key_of(path, info),
        done is Ok,
        second matches Ok(Lookup::Cached(_)),
{
}

/// Directories and symbolic links are never cached: each lookup is a fetch
/// without a key, and completing it leaves the cache as it was, so the next
/// lookup is a fetch again.
pub proof fn lemma_links_and_directories_always_fetched<T: Clone, F: Fn(Icon) -> T>(
    before: Provider<T, F>,
    after: Provider<T, F>,
    path: Seq<char>,
    info: PathInfo,
    first: Result<Lookup<T>, Error>,
    outcome: Option<Icon>,
    done: Result<T, Error>,
    second: Result<Lookup<T>, Error>,
)
    requires
        info.exists,
        info.is_dir || info.is_symlink,
        before.looked_up(path, info, first),
        after.spec_icon_size() == before.spec_icon_size(),
        completed(before.cached(), before.converter(), first->Ok_0->Fetch_0, outcome, after.cached(), done),
        after.looked_up(path, info, second),
    ensures
        first matches Ok(Lookup::Fetch(f)) && f.key is None,
        after.cached() == before.cached(),
        second matches Ok(Lookup::Fetch(f)) && f.key is None,
{
}

} // verus!
