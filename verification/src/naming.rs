//! Names the game rules compare or build: scene files, object identities
//! and text markup.
use vstd::prelude::*;

verus! {

/// The scene of the boss fight.
pub const CASTLE_BOSS_SCENE: &'static str = "res://Scenes/Castle/Castle_Boss.tscn";

/// The first room of the castle, where the overworld music stops.
pub const CASTLE_FIRST_SCENE: &'static str = "res://Scenes/Castle/Castle_1.tscn";

/// The overworld room where the music starts again.
pub const OVERWORLD_MUSIC_SCENE: &'static str = "res://Scenes/Overworld/Overworld_4.tscn";

/// The separator between the scene file and the node path in an identity.
pub const ID_SEPARATOR: &'static str = "--";

/// The identity of a scene object that the progress record keys by: its
/// scene file, `--`, and its node path.
pub open spec fn spec_object_id(scene_file: Seq<char>, node_path: Seq<char>) -> Seq<char> {
    scene_file + ID_SEPARATOR@ + node_path
}

/// Builds the identity of a scene object from its scene file and node path.
pub fn object_id(scene_file: String, node_path: String) -> (id: String)
    ensures
        id@ == spec_object_id(scene_file@, node_path@),
{
    let id = scene_file.concat(ID_SEPARATOR);
    id.concat(node_path.as_str())
}

/// Whether a string reads exactly as a literal.
pub fn text_is(s: &String, lit: &str) -> (r: bool)
    ensures
        r == (s@ == lit@),
{
    *s == String::from_str(lit)
}

/// Prefixes `text` with a markup prefix.
pub fn with_prefix(prefix: &str, text: &String) -> (r: String)
    ensures
        r@ == prefix@ + text@,
{
    String::from_str(prefix).concat(text.as_str())
}

/// Two objects in one scene with different node paths get different
/// identities.
pub proof fn law_object_ids_tell_paths_apart(scene: Seq<char>, p1: Seq<char>, p2: Seq<char>)
    requires
        p1 != p2,
    ensures
        spec_object_id(scene, p1) != spec_object_id(scene, p2),
{
    let pre = scene + ID_SEPARATOR@;
    let a = spec_object_id(scene, p1);
    let b = spec_object_id(scene, p2);
    assert(a =~= pre + p1);
    assert(b =~= pre + p2);
    if a == b {
        assert(a.subrange(pre.len() as int, a.len() as int) =~= p1);
        assert(b.subrange(pre.len() as int, b.len() as int) =~= p2);
    }
}

} // verus!
