//! Who can touch whom.
//!
//! Every body on the playfield belongs to one layer and names the layers
//! that it looks for. Two bodies are in contact only if each looks for the
//! layer of the other.

use vstd::prelude::*;

verus! {

/// A collision layer.
#[derive(Clone, Copy, Debug, PartialEq, Eq, Structural)]
pub enum MyLayer {
    Player,
    PlayerBullet,
    Enemy,
    EnemyBullet,
    Item,
}

/// A kind of body on the playfield.
#[derive(Clone, Copy, Debug, PartialEq, Eq, Structural)]
pub enum Body {
    Player,
    PlayerBullet,
    Enemy,
    Boss,
    EnemyBullet,
    Item,
}

/// The layer that a body belongs to. The boss counts as an enemy.
pub open spec fn layer_of(body: Body) -> MyLayer {
    match body {
        Body::Player => MyLayer::Player,
        Body::PlayerBullet => MyLayer::PlayerBullet,
        Body::Enemy => MyLayer::Enemy,
        Body::Boss => MyLayer::Enemy,
        Body::EnemyBullet => MyLayer::EnemyBullet,
        Body::Item => MyLayer::Item,
    }
}

/// Whether a body looks for bodies of `layer`.
pub open spec fn looks_for(body: Body, layer: MyLayer) -> bool {
    match body {
        Body::Player => layer == MyLayer::Enemy || layer == MyLayer::EnemyBullet || layer
            == MyLayer::Item,
        Body::PlayerBullet => layer == MyLayer::Enemy,
        Body::Enemy => layer == MyLayer::Player || layer == MyLayer::PlayerBullet,
        Body::Boss => layer == MyLayer::PlayerBullet,
        Body::EnemyBullet => layer == MyLayer::Player,
        Body::Item => layer == MyLayer::Player,
    }
}

/// Whether two bodies can be in contact: each looks for the other's layer.
pub open spec fn can_touch(a: Body, b: Body) -> bool {
    looks_for(a, layer_of(b)) && looks_for(b, layer_of(a))
}

/// The layer that a body belongs to.
pub fn membership(body: Body) -> (layer: MyLayer)
    ensures
        layer == layer_of(body),
{
    match body {
        Body::Player => MyLayer::Player,
        Body::PlayerBullet => MyLayer::PlayerBullet,
        Body::Enemy => MyLayer::Enemy,
        Body::Boss => MyLayer::Enemy,
        Body::EnemyBullet => MyLayer::EnemyBullet,
        Body::Item => MyLayer::Item,
    }
}

/// Whether a body looks for bodies of `layer`.
pub fn filters(body: Body, layer: MyLayer) -> (seen: bool)
    ensures
        seen == looks_for(body, layer),
{
    match (body, layer) {
        (Body::Player, MyLayer::Enemy) => true,
        (Body::Player, MyLayer::EnemyBullet) => true,
        (Body::Player, MyLayer::Item) => true,
        (Body::PlayerBullet, MyLayer::Enemy) => true,
        (Body::Enemy, MyLayer::Player) => true,
        (Body::Enemy, MyLayer::PlayerBullet) => true,
        (Body::Boss, MyLayer::PlayerBullet) => true,
        (Body::EnemyBullet, MyLayer::Player) => true,
        (Body::Item, MyLayer::Player) => true,
        _ => false,
    }
}

/// Whether two bodies can be in contact.
pub fn touches(a: Body, b: Body) -> (contact: bool)
    ensures
        contact == can_touch(a, b),
{
    filters(a, membership(b)) && filters(b, membership(a))
}

/// Contact is mutual. Bullets strike only the other side: the player's hit
/// enemies and the boss, the enemies' hit the player. Pickups are for the
/// player alone, and the boss, unlike an enemy, cannot be run into.
pub proof fn lemma_contacts(a: Body, b: Body)
    ensures
        can_touch(a, b) == can_touch(b, a),
        can_touch(Body::PlayerBullet, b) == (b == Body::Enemy || b == Body::Boss),
        can_touch(Body::EnemyBullet, b) == (b == Body::Player),
        can_touch(Body::Item, b) == (b == Body::Player),
        can_touch(Body::Player, Body::Enemy),
        !can_touch(Body::Player, Body::Boss),
        !can_touch(a, a),
{
}

} // verus!
