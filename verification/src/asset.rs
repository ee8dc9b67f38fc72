//! The asset manager: a cache that loads each texture and each program once.

use crate::program::Program;
use crate::table::NameTable;
use crate::texture::Texture;
use vstd::prelude::*;

verus! {

/// The cache after a request for `key` whose loader would produce `loaded`:
/// unchanged where `key` was cached, else with `loaded` stored under `key`.
pub open spec fn cache_after<V>(cache: Map<Seq<char>, V>, key: Seq<char>, loaded: V) -> Map<
    Seq<char>,
    V,
> {
    if cache.contains_key(key) {
        cache
    } else {
        cache.insert(key, loaded)
    }
}

/// What a request for `key` returns where its loader would produce `loaded`:
/// the cached value where there is one, else `loaded`.
pub open spec fn cache_result<V>(cache: Map<Seq<char>, V>, key: Seq<char>, loaded: V) -> V {
    if cache.contains_key(key) {
        cache[key]
    } else {
        loaded
    }
}

/// Asking twice for one key returns the same resource both times, and the
/// second request changes nothing: whatever its loader would produce is
/// never looked at.
pub proof fn lemma_second_request_is_served_from_cache<V>(
    cache: Map<Seq<char>, V>,
    key: Seq<char>,
    first: V,
    second: V,
)
    ensures
        cache_result(cache_after(cache, key, first), key, second) == cache_result(
            cache,
            key,
            first,
        ),
        cache_after(cache_after(cache, key, first), key, second) == cache_after(
            cache,
            key,
            first,
        ),
        cache_after(cache, key, first).contains_key(key),
{
}

/// A request for one key leaves every other key as it was.
pub proof fn lemma_request_keeps_other_keys<V>(
    cache: Map<Seq<char>, V>,
    key: Seq<char>,
    loaded: V,
    other: Seq<char>,
)
    requires
        other != key,
    ensures
        cache_after(cache, key, loaded).contains_key(other) == cache.contains_key(other),
        cache.contains_key(other) ==> cache_after(cache, key, loaded)[other] == cache[other],
{
}

/// Textures and programs by load key. Entries are made on first request and
/// live as long as the manager; nothing is evicted.
#[derive(Debug)]
pub struct AssetManager {
    textures: NameTable<Texture>,
    programs: NameTable<Program>,
}

impl AssetManager {
    /// The cached textures, by key.
    pub closed spec fn textures(&self) -> Map<Seq<char>, Texture> {
        self.textures@
    }

    /// The cached programs, by key.
    pub closed spec fn programs(&self) -> Map<Seq<char>, Program> {
        self.programs@
    }

    /// A manager with nothing cached.
    pub fn new() -> (manager: AssetManager)
        ensures
            manager.textures() == Map::<Seq<char>, Texture>::empty(),
            manager.programs() == Map::<Seq<char>, Program>::empty(),
    {
        AssetManager { textures: NameTable::new(), programs: NameTable::new() }
    }

    /// The texture cached under `key`; where there is none, the one that
    /// `loader` makes, which is then cached. `loader` is called only in that
    /// case, and once.
    pub fn get_or_load_texture<F: FnOnce() -> Texture>(&mut self, key: &str, loader: F) -> (texture:
        &Texture)
        requires
            !old(self).textures().contains_key(key@) ==> loader.requires(()),
        ensures
            !old(self).textures().contains_key(key@) ==> loader.ensures((), *texture),
            *texture == cache_result(old(self).textures(), key@, *texture),
            final(self).textures() == cache_after(old(self).textures(), key@, *texture),
            final(self).programs() == old(self).programs(),
    {
        let texture = self.textures.get_or_insert_with(key, loader);
        assert(old(self).textures().contains_key(key@) ==> old(self).textures().insert(
            key@,
            *texture,
        ) =~= old(self).textures());
        &*texture
    }

    /// The program cached under `key`; where there is none, the one that
    /// `loader` makes, which is then cached. `loader` is called only in that
    /// case, and once. The program is handed out mutably, so that it can learn
    /// uniform locations; what the caller leaves in it is what stays cached.
    pub fn get_or_load_program<F: FnOnce() -> Program>(&mut self, key: &str, loader: F) -> (program:
        &mut Program)
        requires
            !old(self).programs().contains_key(key@) ==> loader.requires(()),
        ensures
            !old(self).programs().contains_key(key@) ==> loader.ensures((), *program),
            *program == cache_result(old(self).programs(), key@, *program),
            final(self).programs() == old(self).programs().insert(key@, *final(program)),
            final(self).textures() == old(self).textures(),
    {
        self.programs.get_or_insert_with(key, loader)
    }
}

} // verus!
