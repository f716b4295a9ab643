use to_do_list::record::ToDoList;
use to_do_list::{create, create_with_capacity, new_task, record_size, TodoError, CAPACITY_BYTES};

const OWNER: [u8; 32] = [7u8; 32];

fn names(list: &ToDoList) -> Vec<String> {
    list.tasks().clone()
}

#[test]
fn create_alice_starts_empty() {
    let list = create(OWNER, "Alice".to_string()).unwrap();
    assert_eq!(list.user_name(), "Alice");
    assert!(list.tasks().is_empty());
    assert_eq!(list.owner(), OWNER);
    assert_eq!(list.capacity_bytes(), CAPACITY_BYTES);
    assert_eq!(list.serialized_size(), 4 + 5 + 4);
    assert!(list.serialized_size() <= CAPACITY_BYTES);
}

#[test]
fn alice_scenario_until_capacity_exceeded() {
    let mut list = create(OWNER, "Alice".to_string()).unwrap();
    assert_eq!(new_task(&mut list, "buy milk".to_string()), Ok(()));
    assert_eq!(list.user_name(), "Alice");
    assert_eq!(names(&list), vec!["buy milk".to_string()]);
    assert_eq!(list.serialized_size(), 13 + 4 + 8);

    let mut len: usize = 1;
    loop {
        let before = names(&list);
        let size_before = list.serialized_size();
        let item = "x".repeat(len);
        let would_be = size_before + 4 + len;
        let r = new_task(&mut list, item.clone());
        if would_be > CAPACITY_BYTES {
            assert_eq!(r, Err(TodoError::CapacityExceeded));
            assert_eq!(names(&list), before);
            assert_eq!(list.serialized_size(), size_before);
            break;
        }
        assert_eq!(r, Ok(()));
        assert_eq!(list.tasks().last(), Some(&item));
        assert!(list.serialized_size() <= CAPACITY_BYTES);
        len += 10;
    }
}

#[test]
fn append_grows_by_exactly_one() {
    let mut list = create(OWNER, "home".to_string()).unwrap();
    new_task(&mut list, "first".to_string()).unwrap();
    let before = names(&list);
    new_task(&mut list, "second".to_string()).unwrap();
    assert_eq!(list.tasks().len(), before.len() + 1);
    assert_eq!(&list.tasks()[..before.len()], &before[..]);
    assert_eq!(list.tasks()[1], "second");
}

#[test]
fn appends_keep_their_order() {
    let mut list = create(OWNER, "Alice".to_string()).unwrap();
    for item in ["a", "b", "c"] {
        assert_eq!(new_task(&mut list, item.to_string()), Ok(()));
    }
    assert_eq!(names(&list), vec!["a".to_string(), "b".to_string(), "c".to_string()]);
}

#[test]
fn refused_append_changes_nothing() {
    let mut list = create(OWNER, "Alice".to_string()).unwrap();
    new_task(&mut list, "keep".to_string()).unwrap();
    let before = names(&list);
    let size = list.serialized_size();
    let r = new_task(&mut list, "y".repeat(300));
    assert_eq!(r, Err(TodoError::CapacityExceeded));
    assert_eq!(names(&list), before);
    assert_eq!(list.serialized_size(), size);
    assert_eq!(list.user_name(), "Alice");
}

#[test]
fn item_filling_capacity_exactly_is_accepted() {
    let mut list = create(OWNER, "Alice".to_string()).unwrap();
    let item = "z".repeat(CAPACITY_BYTES - 13 - 4);
    assert_eq!(new_task(&mut list, item), Ok(()));
    assert_eq!(list.serialized_size(), CAPACITY_BYTES);
    assert_eq!(new_task(&mut list, String::new()), Err(TodoError::CapacityExceeded));
    assert_eq!(list.tasks().len(), 1);
}

#[test]
fn empty_item_takes_its_length_prefix() {
    let mut list = create(OWNER, String::new()).unwrap();
    assert_eq!(list.serialized_size(), 8);
    assert_eq!(new_task(&mut list, String::new()), Ok(()));
    assert_eq!(list.serialized_size(), 12);
    assert_eq!(names(&list), vec![String::new()]);
}

#[test]
fn name_filling_capacity_leaves_no_room() {
    let name = "n".repeat(CAPACITY_BYTES - 8);
    let mut list = create(OWNER, name).unwrap();
    assert_eq!(list.serialized_size(), CAPACITY_BYTES);
    assert_eq!(new_task(&mut list, String::new()), Err(TodoError::CapacityExceeded));
    assert!(list.tasks().is_empty());
}

#[test]
fn name_too_long_is_refused() {
    let name = "n".repeat(CAPACITY_BYTES - 7);
    assert_eq!(create(OWNER, name).unwrap_err(), TodoError::AllocationTooSmall);
}

#[test]
fn sizes_count_utf8_bytes_not_chars() {
    // Each 'é' takes two bytes.
    let fits = "é".repeat((CAPACITY_BYTES - 8) / 2);
    let list = create(OWNER, fits).unwrap();
    assert_eq!(list.serialized_size(), CAPACITY_BYTES);
    let too_long = "é".repeat((CAPACITY_BYTES - 8) / 2 + 1);
    assert_eq!(create(OWNER, too_long).unwrap_err(), TodoError::AllocationTooSmall);
    let mut list = create(OWNER, "a".to_string()).unwrap();
    new_task(&mut list, "éé".to_string()).unwrap();
    assert_eq!(list.serialized_size(), 4 + 1 + 4 + 4 + 4);
}

#[test]
fn create_with_capacity_checks_the_given_capacity() {
    let list = create_with_capacity(OWNER, String::new(), 8).unwrap();
    assert_eq!(list.capacity_bytes(), 8);
    assert_eq!(create_with_capacity(OWNER, String::new(), 7).unwrap_err(), TodoError::AllocationTooSmall);
    let mut list = create_with_capacity(OWNER, "ab".to_string(), 1000).unwrap();
    assert_eq!(new_task(&mut list, "q".repeat(500)), Ok(()));
    assert_eq!(list.serialized_size(), 4 + 2 + 4 + 4 + 500);
}

#[test]
fn record_size_exact_values() {
    let name = "Alice".to_string();
    let items = vec!["buy milk".to_string(), "a".to_string()];
    assert_eq!(record_size(&name, &items, 264), Some(13 + 12 + 5));
    assert_eq!(record_size(&name, &items, 30), Some(30));
    assert_eq!(record_size(&name, &items, 29), None);
    assert_eq!(record_size(&name, &Vec::new(), 13), Some(13));
    assert_eq!(record_size(&name, &Vec::new(), 12), None);
}

#[test]
fn from_parts_checks_stored_parts() {
    let tasks = vec!["a".to_string(), "b".to_string()];
    let list = ToDoList::from_parts(OWNER, "n".to_string(), tasks.clone(), 264).unwrap();
    assert_eq!(list.tasks(), &tasks);
    assert_eq!(list.serialized_size(), 5 + 4 + 10);
    assert_eq!(
        ToDoList::from_parts(OWNER, "n".to_string(), tasks.clone(), 18).unwrap_err(),
        TodoError::CapacityExceeded
    );
    assert_eq!(
        ToDoList::from_parts(OWNER, "n".to_string(), tasks, 8).unwrap_err(),
        TodoError::AllocationTooSmall
    );
}
