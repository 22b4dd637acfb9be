use vstd::prelude::*;
use crate::cache::{IconCache, Key};
use crate::error::Error;
use crate::icon::Icon;
use crate::path::{has_own_path_icon, is_lossy, is_lossy_text, PathInfo};
use crate::request::{check_request, complete_fetch, completed, is_usable, key_view, IconFetch, Lookup};

verus! {

/// Whether the icon of `path` may be cached under the path itself: not for
/// directories, symbolic links and executables, whose icons are their own,
/// nor for a path that is not text.
pub open spec fn path_is_key(path: Seq<char>, info: PathInfo) -> bool {
    !has_own_path_icon(info) && !is_lossy(path)
}

/// Icons of any size, converted once per size and path and then served from
/// a cache.
pub struct FileIconProvider<T, F> {
    cache: IconCache<T>,
    convert: F,
}

impl<T: Clone, F: Fn(Icon) -> T> FileIconProvider<T, F> {
    /// How this provider converts icons.
    pub closed spec fn converter(&self) -> F {
        self.convert
    }

    /// What the cache holds, by size and path.
    pub closed spec fn cached(&self) -> Map<Key, T> {
        self.cache@
    }

    pub closed spec fn wf(&self) -> bool {
        &&& self.cache.wf()
        &&& forall|i: Icon| self.convert.requires((i,))
    }

    /// How a lookup of `path` at `size` ends: a null size, then a path that
    /// does not exist, is refused before the cache is read; a path that may
    /// be cached and is gets a clone of the cached value; any other gets a
    /// fetch, keyed by the path where it may be cached.
    pub open spec fn looked_up(
        &self,
        path: Seq<char>,
        size: u16,
        info: PathInfo,
        r: Result<Lookup<T>, Error>,
    ) -> bool {
        if size == 0 {
            r == Err::<Lookup<T>, Error>(Error::NullIconSize)
        } else if !info.exists {
            r == Err::<Lookup<T>, Error>(Error::PathDoesNotExist)
        } else if path_is_key(path, info) && self.cached().contains_key((size, path)) {
            r matches Ok(Lookup::Cached(v)) && cloned(self.cached()[(size, path)], v)
        } else {
            r matches Ok(Lookup::Fetch(f)) && f.path@ == path && f.size == size && key_view(f.key)
                == (if path_is_key(path, info) {
                Some(path)
            } else {
                None
            })
        }
    }

    /// A provider with an empty cache that converts icons by `convert`.
    pub fn new(convert: F) -> (r: Self)
        requires
            forall|i: Icon| convert.requires((i,)),
        ensures
            r.wf(),
            r.converter() == convert,
            r.cached() == Map::<Key, T>::empty(),
    {
        FileIconProvider { cache: IconCache::new(), convert }
    }

    /// Looks up the icon of `path` at `size`, given what the file system says
    /// of the path.
    pub fn icon(&self, path: &str, size: u16, info: PathInfo) -> (r: Result<Lookup<T>, Error>)
        requires
            self.wf(),
        ensures
            self.looked_up(path@, size, info, r),
    {
        let fetch = match check_request(path, info.exists, size) {
            Ok(fetch) => fetch,
            Err(e) => return Err(e),
        };
        if info.is_dir || info.is_symlink || info.is_executable || is_lossy_text(path) {
            return Ok(Lookup::Fetch(fetch));
        }
        let key = path.to_owned();
        if let Some(v) = self.cache.get(size, &key) {
            return Ok(Lookup::Cached(v));
        }
        Ok(Lookup::Fetch(IconFetch { path: fetch.path, size, key: Some(key) }))
    }

    /// Ends a fetch with the platform's answer, as `completed` states it.
    pub fn complete(&mut self, fetch: IconFetch, outcome: Option<Icon>) -> (r: Result<T, Error>)
        requires
            old(self).wf(),
        ensures
            final(self).wf(),
            final(self).converter() == old(self).converter(),
            completed(old(self).cached(), old(self).converter(), fetch, outcome, final(self).cached(), r),
    {
        complete_fetch(&mut self.cache, &self.convert, fetch, outcome)
    }

    /// Clear the cache.
    pub fn clear(&mut self)
        requires
            old(self).wf(),
        ensures
            final(self).wf(),
            final(self).converter() == old(self).converter(),
            final(self).cached() == Map::<Key, T>::empty(),
    {
        self.cache.clear();
    }
}

/// Once the fetch for an existing file at a size completes with an icon, the
/// next lookup of that path at that size is served from the cache, with a
/// clone of the value that the completion stored. Directories, symbolic
/// links, executables and paths that are not text are left out.
pub proof fn lemma_path_served_after_fetch<T: Clone, F: Fn(Icon) -> T>(
    before: FileIconProvider<T, F>,
    after: FileIconProvider<T, F>,
    path: Seq<char>,
    size: u16,
    info: PathInfo,
    first: Result<Lookup<T>, Error>,
    outcome: Option<Icon>,
    done: Result<T, Error>,
    second: Result<Lookup<T>, Error>,
)
    requires
        size > 0,
        info.exists,
        path_is_key(path, info),
        before.looked_up(path, size, info, first),
        first is Ok && first->Ok_0 is Fetch,
        completed(before.cached(), before.converter(), first->Ok_0->Fetch_0, outcome, after.cached(), done),
        is_usable(outcome),
        after.looked_up(path, size, info, second),
    ensures
        ({
            let stored = after.cached()[(size, path)];
            &&& done matches Ok(v1) && cloned(stored, v1)
            &&& second matches Ok(Lookup::Cached(v2)) && cloned(stored, v2)
        }),
{
}

/// Directories and symbolic links are never cached: each lookup is a fetch
/// without a key, and completing it leaves the cache as it was, so the next
/// lookup is a fetch again.
pub proof fn lemma_links_and_directories_always_fetched<T: Clone, F: Fn(Icon) -> T>(
    before: FileIconProvider<T, F>,
    after: FileIconProvider<T, F>,
    path: Seq<char>,
    size: u16,
    info: PathInfo,
    first: Result<Lookup<T>, Error>,
    outcome: Option<Icon>,
    done: Result<T, Error>,
    second: Result<Lookup<T>, Error>,
)
    requires
        size > 0,
        info.exists,
        info.is_dir || info.is_symlink,
        before.looked_up(path, size, info, first),
        completed(before.cached(), before.converter(), first->Ok_0->Fetch_0, outcome, after.cached(), done),
        after.looked_up(path, size, info, second),
    ensures
        first matches Ok(Lookup::Fetch(f)) && f.key is None,
        after.cached() == before.cached(),
        second matches Ok(Lookup::Fetch(f)) && f.key is None,
{
}

} // verus!
