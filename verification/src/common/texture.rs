//! The registry of loaded textures.

use vstd::prelude::*;
use crate::common::string_map::StringMap;

verus! {

/// A registry of texture handles keyed by id. The handle type is whatever the renderer
/// binds a texture with (an image view and its sampler).
pub struct TextureRegistry<H> {
    textures: StringMap<H>,
}

impl<H> TextureRegistry<H> {
    /// The registered textures, by id.
    pub closed spec fn textures(&self) -> Map<Seq<char>, H> {
        self.textures@
    }

    /// An empty registry.
    pub fn new() -> (r: Self)
        ensures
            r.textures() == Map::<Seq<char>, H>::empty(),
    {
        TextureRegistry { textures: StringMap::new() }
    }

    /// Files `texture` under `id`, replacing any earlier texture with that id.
    pub fn register(&mut self, id: String, texture: H)
        ensures
            final(self).textures() == old(self).textures().insert(id@, texture),
    {
        self.textures.insert(id, texture);
    }

    /// Looks a texture up by id.
    pub fn get(&self, id: &str) -> (r: Option<&H>)
        ensures
            match r {
                Some(t) => self.textures().dom().contains(id@) && *t == self.textures()[id@],
                None => !self.textures().dom().contains(id@),
            },
    {
        let key = String::from_str(id);
        self.textures.get(&key)
    }
}

/// Registering a texture files it under its id and leaves every other id as it was.
pub proof fn lemma_register_then_get<H>(
    before: TextureRegistry<H>,
    after: TextureRegistry<H>,
    id: Seq<char>,
    t: H,
    other: Seq<char>,
)
    requires
        after.textures() == before.textures().insert(id, t),
    ensures
        after.textures().dom().contains(id),
        after.textures()[id] == t,
        other != id ==> (after.textures().dom().contains(other) == before.textures().dom().contains(other)),
        other != id && before.textures().dom().contains(other) ==> after.textures()[other] == before.textures()[other],
{
}

} // verus!
