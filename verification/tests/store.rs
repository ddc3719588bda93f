use pubsub::actor::ValueStore;
use pubsub::collection::{Collection, Entry};
use pubsub::command::{
    add_value_to_collection, flag_reply, get_collection, get_value, item_reply, remove_value,
    remove_value_from_collection, set_value, snapshot_reply, Command, Reply, StoreError,
};
use pubsub::store::{Client, Store, Subscribers};
use pubsub::table::Table;

fn client(user_id: &str) -> Client {
    Client { user_id: String::from(user_id), sender: None }
}

#[test]
fn store_it_works() {}

#[test]
fn test_get_value() {
    let key: String = String::from("hello");
    let mut clients: ValueStore<Client> = ValueStore::new();
    clients.set_item(key, client("1"));
    let reply = clients.apply_scalar(get_value(String::from("hello")));
    let result = item_reply(reply);
    assert!(result.is_ok());
    assert_eq!(result.unwrap().unwrap().user_id, "1");
}

#[test]
fn test_set_value() {
    let mut clients: ValueStore<Client> = ValueStore::new();
    let reply = clients.apply_scalar(set_value(String::from("hello"), client("1")));
    let result = item_reply(reply);
    assert!(result.is_ok());
    assert!(result.unwrap().is_none());
    assert_eq!(clients.get_item(&String::from("hello")).unwrap().user_id, "1");
}

#[test]
fn test_remove_value() {
    let key: String = String::from("hello");
    let mut clients: ValueStore<Client> = ValueStore::new();
    clients.set_item(key, client("1"));
    let reply = clients.apply_scalar(remove_value(String::from("hello")));
    let result = item_reply(reply);
    assert!(result.is_ok());
    assert_eq!(result.unwrap().unwrap().user_id, "1");
    assert!(clients.get_item(&String::from("hello")).is_none());
}

#[test]
fn test_get_collection() {
    let mut subscriptions: ValueStore<Client> = ValueStore::new();
    subscriptions.add_to_collection(String::from("hello"), client("1"));
    let reply = subscriptions.apply_collection(get_collection(String::from("hello")));
    let result = snapshot_reply(reply);
    assert!(result.is_ok());
    let snapshot = result.unwrap().unwrap();
    assert_eq!(snapshot.len(), 1);
    assert_eq!(snapshot.member(0).user_id, "1");
}

#[test]
fn test_add_value_to_collection() {
    let mut subscriptions: ValueStore<Client> = ValueStore::new();
    let key: String = String::from("hello");
    let reply = subscriptions.apply_collection(add_value_to_collection(key, client("1")));
    let result = flag_reply(reply);
    assert!(result.is_ok());
    assert_eq!(result, Ok(true));
}

#[test]
fn test_remove_value_from_collection() {
    let mut subscriptions: ValueStore<Client> = ValueStore::new();
    subscriptions.add_to_collection(String::from("hello"), client("1"));
    let reply = subscriptions
        .apply_collection(remove_value_from_collection(String::from("hello"), client("1")));
    let result = flag_reply(reply);
    assert!(result.is_ok());
    assert_eq!(result, Ok(true));
}

#[test]
fn set_item_then_get_item_returns_the_value() {
    let mut store: ValueStore<String> = ValueStore::new();
    let previous = store.set_item(String::from("k"), String::from("v"));
    assert_eq!(previous, None);
    assert_eq!(store.get_item(&String::from("k")), Some(String::from("v")));
}

#[test]
fn set_item_hands_back_the_previous_value() {
    let mut store: ValueStore<String> = ValueStore::new();
    store.set_item(String::from("k"), String::from("old"));
    let previous = store.set_item(String::from("k"), String::from("new"));
    assert_eq!(previous, Some(String::from("old")));
    assert_eq!(store.get_item(&String::from("k")), Some(String::from("new")));
    assert_eq!(store.get_item(&String::from("other")), None);
}

#[test]
fn unset_item_then_get_item_returns_absent() {
    let mut store: ValueStore<String> = ValueStore::new();
    assert_eq!(store.unset_item(&String::from("k")), None);
    assert_eq!(store.get_item(&String::from("k")), None);
    store.set_item(String::from("k"), String::from("v"));
    store.set_item(String::from("j"), String::from("w"));
    assert_eq!(store.unset_item(&String::from("k")), Some(String::from("v")));
    assert_eq!(store.get_item(&String::from("k")), None);
    assert_eq!(store.get_item(&String::from("j")), Some(String::from("w")));
}

#[test]
fn add_to_collection_twice_keeps_one_member() {
    let mut store: ValueStore<String> = ValueStore::new();
    assert!(store.add_to_collection(String::from("k"), String::from("v")));
    assert!(!store.add_to_collection(String::from("k"), String::from("v")));
    let snapshot = store.get_collection(&String::from("k")).unwrap();
    assert_eq!(snapshot.len(), 1);
    assert_eq!(snapshot.member(0), "v");
}

#[test]
fn add_to_collection_makes_the_collection() {
    let mut store: ValueStore<String> = ValueStore::new();
    assert!(store.get_collection(&String::from("k")).is_none());
    assert!(store.add_to_collection(String::from("k"), String::from("a")));
    assert!(store.add_to_collection(String::from("k"), String::from("b")));
    let snapshot = store.get_collection(&String::from("k")).unwrap();
    assert_eq!(snapshot.len(), 2);
    assert_eq!(snapshot.member(0), "a");
    assert_eq!(snapshot.member(1), "b");
    assert!(store.get_collection(&String::from("other")).is_none());
}

#[test]
fn remove_from_collection_without_collection_makes_none() {
    let mut store: ValueStore<String> = ValueStore::new();
    assert!(!store.remove_from_collection(&String::from("k"), &String::from("v")));
    assert!(store.get_collection(&String::from("k")).is_none());
}

#[test]
fn remove_from_collection_leaves_an_empty_collection() {
    let mut store: ValueStore<String> = ValueStore::new();
    store.add_to_collection(String::from("k"), String::from("a"));
    store.add_to_collection(String::from("k"), String::from("b"));
    assert!(!store.remove_from_collection(&String::from("k"), &String::from("c")));
    assert!(store.remove_from_collection(&String::from("k"), &String::from("a")));
    assert!(!store.remove_from_collection(&String::from("k"), &String::from("a")));
    assert!(store.remove_from_collection(&String::from("k"), &String::from("b")));
    let snapshot = store.get_collection(&String::from("k")).unwrap();
    assert_eq!(snapshot.len(), 0);
}

#[test]
fn last_set_item_decides_the_stored_value() {
    let mut store: ValueStore<String> = ValueStore::new();
    let commands = vec![
        Store::set(String::from("k"), String::from("first")),
        Store::set(String::from("j"), String::from("aside")),
        Store::unset(String::from("k")),
        Store::set(String::from("k"), String::from("second")),
        Store::add_to_collection(String::from("k"), String::from("member")),
        Store::set(String::from("j"), String::from("later")),
    ];
    for command in commands {
        store.apply(command);
    }
    assert_eq!(store.get_item(&String::from("k")), Some(String::from("second")));
    assert_eq!(store.get_item(&String::from("j")), Some(String::from("later")));
}

#[test]
fn apply_answers_each_command_with_its_kind_of_reply() {
    let mut store: ValueStore<String> = ValueStore::new();
    assert!(matches!(store.apply(Store::set(String::from("k"), String::from("v"))), Reply::Item(None)));
    assert!(matches!(store.apply(get_value(String::from("k"))), Reply::Item(Some(v)) if v == "v"));
    assert!(matches!(store.apply(Store::unset(String::from("k"))), Reply::Item(Some(v)) if v == "v"));
    assert!(matches!(store.apply(get_value(String::from("k"))), Reply::Item(None)));
    assert!(matches!(store.apply(get_collection(String::from("k"))), Reply::Snapshot(None)));
    assert!(matches!(
        store.apply(Store::add_to_collection(String::from("k"), String::from("v"))),
        Reply::Flag(true)
    ));
    assert!(matches!(
        store.apply(Store::add_to_collection(String::from("k"), String::from("v"))),
        Reply::Flag(false)
    ));
    assert!(matches!(store.apply(get_collection(String::from("k"))), Reply::Snapshot(Some(c)) if c.len() == 1));
    assert!(matches!(
        store.apply(Store::remove_value_from_collection(String::from("k"), String::from("v"))),
        Reply::Flag(true)
    ));
    assert!(matches!(
        store.apply(Store::remove_value_from_collection(String::from("k"), String::from("v"))),
        Reply::Flag(false)
    ));
}

#[test]
fn client_registry_drops_collection_commands() {
    let mut clients: ValueStore<Client> = ValueStore::new();
    let reply = clients.apply_scalar(Subscribers::add_subscriber(String::from("t"), client("1")));
    assert!(reply.is_none());
    assert_eq!(flag_reply(reply), Err(StoreError::ChannelClosed));
    assert!(clients.get_collection(&String::from("t")).is_none());
    let reply = clients.apply_scalar(Subscribers::get_subscribers(String::from("t")));
    assert!(matches!(snapshot_reply(reply), Err(StoreError::ChannelClosed)));
}

#[test]
fn subscription_registry_drops_scalar_commands() {
    let mut subscriptions: ValueStore<Client> = ValueStore::new();
    let reply = subscriptions.apply_collection(Client::set_client(client("1")));
    assert!(reply.is_none());
    assert!(matches!(item_reply(reply), Err(StoreError::ChannelClosed)));
    assert!(subscriptions.get_item(&String::from("1")).is_none());
}

#[test]
fn a_reply_of_another_kind_counts_as_no_reply() {
    assert_eq!(flag_reply(Some(Reply::<String>::Item(None))), Err(StoreError::ChannelClosed));
    assert_eq!(item_reply(Some(Reply::<String>::Flag(true))), Err(StoreError::ChannelClosed));
    assert!(matches!(snapshot_reply(Some(Reply::<String>::Flag(true))), Err(StoreError::ChannelClosed)));
    assert_eq!(item_reply::<String>(None), Err(StoreError::ChannelClosed));
    assert_eq!(item_reply(Some(Reply::Item(Some(String::from("v"))))), Ok(Some(String::from("v"))));
    assert_eq!(flag_reply(Some(Reply::<String>::Flag(false))), Ok(false));
}

#[test]
fn client_commands_are_keyed_by_identity() {
    assert!(matches!(Client::get_client(String::from("a")), Command::GetItem { key } if key == "a"));
    assert!(matches!(
        Client::set_client(client("a")),
        Command::SetItem { key, value } if key == "a" && value.user_id == "a" && value.sender.is_none()
    ));
    assert!(matches!(Client::remove_client(String::from("a")), Command::UnsetItem { key } if key == "a"));
    assert!(matches!(
        Subscribers::remove_subscriber(String::from("t"), client("a")),
        Command::RemoveFromCollection { key, value } if key == "t" && value.user_id == "a"
    ));
}

#[test]
fn clients_are_equal_by_identity_alone() {
    let (tx, _rx) = tokio::sync::mpsc::unbounded_channel();
    let connected = Client { user_id: String::from("a"), sender: Some(tx) };
    assert!(connected == client("a"));
    assert!(connected != client("b"));
    assert!(connected.same_identity(&client("a")));
    assert!(!connected.same_identity(&client("b")));
    let copy = connected.clone();
    assert_eq!(copy.user_id, "a");
    assert!(copy.sender.as_ref().unwrap().same_channel(connected.sender.as_ref().unwrap()));
    assert!(client("a").clone().sender.is_none());
}

#[test]
fn resubscribing_replaces_the_handle() {
    let (tx, _rx) = tokio::sync::mpsc::unbounded_channel();
    let mut members: Collection<Client> = Collection::new();
    assert!(members.add(client("a")));
    assert!(members.add(client("b")));
    assert!(!members.add(Client { user_id: String::from("a"), sender: Some(tx) }));
    assert_eq!(members.len(), 2);
    assert_eq!(members.member(0).user_id, "a");
    assert!(members.member(0).sender.is_some());
    assert_eq!(members.member(1).user_id, "b");
    assert!(members.contains(&client("a")));
    assert!(!members.contains(&client("c")));
    assert!(members.discard(&client("a")));
    assert!(!members.discard(&client("a")));
    assert_eq!(members.len(), 1);
    assert_eq!(members.member(0).user_id, "b");
    let copy = members.snapshot();
    assert_eq!(copy.len(), 1);
    assert_eq!(copy.member(0).user_id, "b");
}

#[test]
fn table_keeps_one_value_under_each_key() {
    let mut table: Table<String> = Table::new();
    assert_eq!(table.insert(String::from("a"), String::from("1")), None);
    assert_eq!(table.insert(String::from("b"), String::from("2")), None);
    assert_eq!(table.insert(String::from("a"), String::from("3")), Some(String::from("1")));
    assert_eq!(table.get(&String::from("a")), Some(&String::from("3")));
    assert_eq!(table.get(&String::from("b")), Some(&String::from("2")));
    assert_eq!(table.get(&String::from("c")), None);
    assert_eq!(table.remove(&String::from("a")), Some(String::from("3")));
    assert_eq!(table.remove(&String::from("a")), None);
    assert_eq!(table.get(&String::from("b")), Some(&String::from("2")));
}

#[test]
fn a_snapshot_does_not_follow_the_store() {
    let mut store: ValueStore<String> = ValueStore::new();
    store.add_to_collection(String::from("k"), String::from("a"));
    let snapshot = store.get_collection(&String::from("k")).unwrap();
    store.add_to_collection(String::from("k"), String::from("b"));
    store.remove_from_collection(&String::from("k"), &String::from("a"));
    assert_eq!(snapshot.len(), 1);
    assert_eq!(snapshot.member(0), "a");
    let now = store.get_collection(&String::from("k")).unwrap();
    assert_eq!(now.len(), 1);
    assert_eq!(now.member(0), "b");
}

#[test]
fn get_commands_change_nothing() {
    let mut store: ValueStore<String> = ValueStore::new();
    assert!(matches!(store.apply(get_collection(String::from("k"))), Reply::Snapshot(None)));
    assert!(matches!(store.apply(get_value(String::from("k"))), Reply::Item(None)));
    assert!(store.get_collection(&String::from("k")).is_none());
    assert!(store.get_item(&String::from("k")).is_none());
}
