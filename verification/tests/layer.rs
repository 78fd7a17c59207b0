use shmup_core::layer::{filters, membership, touches, Body, MyLayer};

const BODIES: [Body; 6] =
    [Body::Player, Body::PlayerBullet, Body::Enemy, Body::Boss, Body::EnemyBullet, Body::Item];

#[test]
fn boss_shares_the_layer_of_the_enemies() {
    assert_eq!(membership(Body::Boss), MyLayer::Enemy);
    assert_eq!(membership(Body::Enemy), MyLayer::Enemy);
    assert_eq!(membership(Body::Player), MyLayer::Player);
    assert_eq!(membership(Body::PlayerBullet), MyLayer::PlayerBullet);
    assert_eq!(membership(Body::EnemyBullet), MyLayer::EnemyBullet);
    assert_eq!(membership(Body::Item), MyLayer::Item);
}

#[test]
fn player_looks_for_enemies_their_bullets_and_pickups() {
    assert!(filters(Body::Player, MyLayer::Enemy));
    assert!(filters(Body::Player, MyLayer::EnemyBullet));
    assert!(filters(Body::Player, MyLayer::Item));
    assert!(!filters(Body::Player, MyLayer::Player));
    assert!(!filters(Body::Player, MyLayer::PlayerBullet));
    assert!(filters(Body::Boss, MyLayer::PlayerBullet));
    assert!(!filters(Body::Boss, MyLayer::Player));
    assert!(filters(Body::Enemy, MyLayer::Player));
}

#[test]
fn contact_is_mutual_and_crosses_sides() {
    let mut pairs = Vec::new();
    for a in BODIES {
        for b in BODIES {
            assert_eq!(touches(a, b), touches(b, a));
            if touches(a, b) {
                pairs.push((a, b));
            }
        }
    }
    assert_eq!(
        pairs,
        vec![
            (Body::Player, Body::Enemy),
            (Body::Player, Body::EnemyBullet),
            (Body::Player, Body::Item),
            (Body::PlayerBullet, Body::Enemy),
            (Body::PlayerBullet, Body::Boss),
            (Body::Enemy, Body::Player),
            (Body::Enemy, Body::PlayerBullet),
            (Body::Boss, Body::PlayerBullet),
            (Body::EnemyBullet, Body::Player),
            (Body::Item, Body::Player),
        ]
    );
}
