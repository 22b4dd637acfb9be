use vstd::prelude::*;
use crate::cache::{IconCache, Key};
use crate::error::Error;
use crate::icon::Icon;

verus! {

/// A request for the platform's icon lookup, with the cache key under which
/// the answer is to be stored, if any.
#[derive(Debug)]
pub struct IconFetch {
    /// The path whose icon is wanted.
    pub path: String,
    /// The edge of the wanted icon, in pixels.
    pub size: u16,
    /// The name under which the converted icon is cached, with `size`.
    pub key: Option<String>,
}

/// What a provider answers to a lookup.
#[derive(Debug)]
pub enum Lookup<T> {
    /// Served from the cache: the platform is not asked.
    Cached(T),
    /// The platform must be asked; its answer goes to the provider's `complete`.
    Fetch(IconFetch),
}

/// The text of an optional key.
pub open spec fn key_view(k: Option<String>) -> Option<Seq<char>> {
    match k {
        Some(s) => Some(s@),
        None => None,
    }
}

/// The platform answered with an icon of four bytes per pixel.
pub open spec fn is_usable(outcome: Option<Icon>) -> bool {
    outcome is Some && outcome->Some_0.is_well_formed()
}

/// How a fetch ends, for a cache that held `before` and holds `after`.
///
/// An answer that is missing or malformed fails and changes nothing. A usable
/// icon is converted and returned; where the fetch has a key, the converted
/// value is stored under it unless a value is there already, and the caller
/// gets a clone of the stored value.
pub open spec fn completed<T: Clone, F: Fn(Icon) -> T>(
    before: Map<Key, T>,
    convert: F,
    fetch: IconFetch,
    outcome: Option<Icon>,
    after: Map<Key, T>,
    r: Result<T, Error>,
) -> bool {
    if !is_usable(outcome) {
        after == before && r == Err::<T, Error>(Error::Failed)
    } else {
        let icon = outcome->Some_0;
        match key_view(fetch.key) {
            None => after == before && r is Ok && call_ensures(convert, (icon,), r->Ok_0),
            Some(name) => {
                let key = (fetch.size, name);
                &&& r is Ok
                &&& after.contains_key(key)
                &&& cloned(after[key], r->Ok_0)
                &&& if before.contains_key(key) {
                    after == before
                } else {
                    &&& after == before.insert(key, after[key])
                    &&& call_ensures(convert, (icon,), after[key])
                }
            },
        }
    }
}

/// Relies on std::path::Path::exists: whether the path names something on
/// disk, following symbolic links. The answer depends on the disk, so nothing
/// is stated of it.
#[verifier::external_body]
fn path_exists(path: &str) -> bool {
    std::path::Path::new(path).exists()
}

/// Checks a request for the icon of `path` at `size`, given whether the path
/// exists.
pub fn check_request(path: &str, exists: bool, size: u16) -> (r: Result<IconFetch, Error>)
    ensures
        size == 0 ==> r == Err::<IconFetch, Error>(Error::NullIconSize),
        size > 0 && !exists ==> r == Err::<IconFetch, Error>(Error::PathDoesNotExist),
        size > 0 && exists ==> (r matches Ok(f) && f.path@ == path@ && f.size == size
            && f.key is None),
{
    if size == 0 {
        return Err(Error::NullIconSize);
    }
    if !exists {
        return Err(Error::PathDoesNotExist);
    }
    Ok(IconFetch { path: path.to_owned(), size, key: None })
}

/// Starts a one-shot lookup of the icon of `path` at `size`, without cache.
/// The size is checked first, then whether the path exists; the fetch that
/// comes back goes to the platform, and its answer to `accept_icon`.
pub fn get_file_icon(path: &str, size: u16) -> (r: Result<IconFetch, Error>)
    ensures
        size == 0 ==> r == Err::<IconFetch, Error>(Error::NullIconSize),
        size > 0 ==> r == Err::<IconFetch, Error>(Error::PathDoesNotExist) || (r matches Ok(f)
            && f.path@ == path@ && f.size == size && f.key is None),
{
    if size == 0 {
        return Err(Error::NullIconSize);
    }
    let exists = path_exists(path);
    check_request(path, exists, size)
}

/// The icon that the platform answered, if it has four bytes per pixel.
pub fn accept_icon(outcome: Option<Icon>) -> (r: Result<Icon, Error>)
    ensures
        is_usable(outcome) ==> r == Ok::<Icon, Error>(outcome->Some_0),
        !is_usable(outcome) ==> r == Err::<Icon, Error>(Error::Failed),
        r matches Ok(icon) ==> icon.is_well_formed(),
{
    match outcome {
        Some(icon) => {
            if icon.has_rgba_layout() {
                Ok(icon)
            } else {
                Err(Error::Failed)
            }
        },
        None => Err(Error::Failed),
    }
}

/// Ends a fetch as `completed` states it.
pub fn complete_fetch<T: Clone, F: Fn(Icon) -> T>(
    cache: &mut IconCache<T>,
    convert: &F,
    fetch: IconFetch,
    outcome: Option<Icon>,
) -> (r: Result<T, Error>)
    requires
        old(cache).wf(),
        forall|i: Icon| convert.requires((i,)),
    ensures
        final(cache).wf(),
        completed(old(cache)@, *convert, fetch, outcome, final(cache)@, r),
{
    let icon = match accept_icon(outcome) {
        Ok(icon) => icon,
        Err(e) => return Err(e),
    };
    match fetch.key {
        None => Ok(convert(icon)),
        Some(name) => {
            match cache.get(fetch.size, &name) {
                Some(v) => Ok(v),
                None => {
                    let value = convert(icon);
                    let out = value.clone();
                    cache.insert(fetch.size, name, value);
                    Ok(out)
                },
            }
        },
    }
}

} // verus!
