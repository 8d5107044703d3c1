//! The synchronized data shapes.

use ankurah_rn_bindings::Message;
use ankurah_rn_bindings::Room;
use ankurah_rn_bindings::User;

#[test]
fn test_model_shapes() {
    let user = User { display_name: "SeedBot".to_string() };
    let room = Room { name: "General".to_string() };
    let message = Message {
        user_id: "u1".to_string(),
        room_id: "r1".to_string(),
        text: "hello".to_string(),
        timestamp: 1700000000000,
        deleted: false,
    };
    let user2 = user.clone();
    let room2 = room.clone();
    let message2 = message.clone();
    assert_eq!(user2.display_name, "SeedBot");
    assert_eq!(room2.name, "General");
    assert_eq!(message2.user_id, "u1");
    assert_eq!(message2.room_id, "r1");
    assert_eq!(message2.text, "hello");
    assert_eq!(message2.timestamp, 1700000000000);
    assert!(!message2.deleted);
}
