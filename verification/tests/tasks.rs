use todo_backend::controller::todo_controller::UpdateTodoRequest;
use todo_backend::database::filter::TodoFilter;
use todo_backend::database::todo_collection::{TodoCollection, UpdateResult};
use todo_backend::model::object_id::ObjectId;
use todo_backend::model::todo_model::{Todo, TodoDocument};
use todo_backend::service::todo_service::TodoService;
use todo_backend::utils::error::CustomError;

fn alice() -> ObjectId {
    ObjectId::parse_str("aaaaaaaaaaaaaaaaaaaaaaaa").unwrap()
}

fn bob() -> ObjectId {
    ObjectId::parse_str("bbbbbbbbbbbbbbbbbbbbbbbb").unwrap()
}

fn milk(store: &mut TodoCollection) -> ObjectId {
    TodoService::new()
        .create(store, "buy milk".to_string(), "2%".to_string(), alice())
        .unwrap()
}

#[test]
fn a_new_task_is_open_and_without_identity() {
    let todo = Todo::new("buy milk".to_string(), "2%".to_string(), alice());
    assert_eq!(
        todo,
        Todo {
            id: None,
            title: "buy milk".to_string(),
            description: "2%".to_string(),
            completed: false,
            user_id: alice(),
        }
    );
}

#[test]
fn a_task_can_be_completed_and_reopened() {
    let mut todo = Todo::new("buy milk".to_string(), "2%".to_string(), alice());
    todo.set_completed(true);
    assert!(todo.completed);
    assert_eq!(todo.title, "buy milk");
    todo.set_completed(false);
    assert!(!todo.completed);
}

#[test]
fn the_written_fields_of_a_task_leave_out_identity_and_owner() {
    let mut todo = Todo::new("buy milk".to_string(), "2%".to_string(), alice());
    todo.set_completed(true);
    assert_eq!(
        todo.to_doc(),
        TodoDocument {
            title: "buy milk".to_string(),
            description: "2%".to_string(),
            completed: true,
        }
    );
}

#[test]
fn a_created_task_defaults_to_open_and_is_the_only_one_listed() {
    let service = TodoService::new();
    let mut store = TodoCollection::new();
    let id = milk(&mut store);
    let listed = service.list_for_owner(&store, alice()).unwrap();
    assert_eq!(
        listed,
        vec![Todo {
            id: Some(id),
            title: "buy milk".to_string(),
            description: "2%".to_string(),
            completed: false,
            user_id: alice(),
        }]
    );
}

#[test]
fn listing_without_tasks_is_empty_and_no_error() {
    let service = TodoService::new();
    let mut store = TodoCollection::new();
    assert_eq!(service.list_for_owner(&store, alice()), Ok(vec![]));
    milk(&mut store);
    assert_eq!(service.list_for_owner(&store, bob()), Ok(vec![]));
}

#[test]
fn tasks_are_listed_in_the_order_of_their_creation() {
    let service = TodoService::new();
    let mut store = TodoCollection::new();
    let first = service.create(&mut store, "one".to_string(), "".to_string(), alice()).unwrap();
    service.create(&mut store, "other".to_string(), "".to_string(), bob()).unwrap();
    let second = service.create(&mut store, "two".to_string(), "".to_string(), alice()).unwrap();
    let listed = service.list_for_owner(&store, alice()).unwrap();
    let ids: Vec<Option<ObjectId>> = listed.iter().map(|t| t.id).collect();
    assert_eq!(ids, vec![Some(first), Some(second)]);
    assert_eq!(store.len(), 3);
}

#[test]
fn every_created_task_gets_an_identity_of_its_own() {
    let mut store = TodoCollection::new();
    let first = milk(&mut store);
    let second = milk(&mut store);
    let third = milk(&mut store);
    assert_ne!(first, second);
    assert_ne!(second, third);
    assert_ne!(first, third);
}

#[test]
fn the_owner_gets_the_task() {
    let service = TodoService::new();
    let mut store = TodoCollection::new();
    let id = milk(&mut store);
    let task = service.get_owned(&store, id, alice()).unwrap();
    assert_eq!(task.id, Some(id));
    assert_eq!(task.title, "buy milk");
    assert_eq!(task.user_id, alice());
}

#[test]
fn another_user_does_not_get_the_task_even_with_its_identity() {
    let service = TodoService::new();
    let mut store = TodoCollection::new();
    let id = milk(&mut store);
    assert_eq!(service.get_owned(&store, id, bob()), Err(CustomError::NotFound));
}

#[test]
fn a_task_of_another_user_looks_like_one_that_does_not_exist() {
    let service = TodoService::new();
    let mut store = TodoCollection::new();
    let id = milk(&mut store);
    let absent = ObjectId::parse_str("cccccccccccccccccccccccc").unwrap();
    assert_eq!(
        service.get_owned(&store, id, bob()),
        service.get_owned(&store, absent, bob())
    );
    assert_eq!(
        service.delete(&mut store, id, bob()),
        service.delete(&mut store, absent, bob())
    );
    let todo = Todo::new("x".to_string(), "y".to_string(), bob());
    assert_eq!(
        service.update(&mut store, id, bob(), &todo),
        service.update(&mut store, absent, bob(), &todo)
    );
}

#[test]
fn another_user_cannot_update_the_task() {
    let service = TodoService::new();
    let mut store = TodoCollection::new();
    let id = milk(&mut store);
    let mut theirs = Todo::new("stolen".to_string(), "!".to_string(), bob());
    theirs.set_completed(true);
    assert_eq!(service.update(&mut store, id, bob(), &theirs), Ok(false));
    let task = service.get_owned(&store, id, alice()).unwrap();
    assert_eq!(task.title, "buy milk");
    assert_eq!(task.description, "2%");
    assert!(!task.completed);
}

#[test]
fn another_user_cannot_delete_the_task() {
    let service = TodoService::new();
    let mut store = TodoCollection::new();
    let id = milk(&mut store);
    assert_eq!(service.delete(&mut store, id, bob()), Ok(false));
    assert_eq!(store.len(), 1);
    assert!(service.get_owned(&store, id, alice()).is_ok());
}

#[test]
fn the_owner_updates_the_task_and_keeps_it() {
    let service = TodoService::new();
    let mut store = TodoCollection::new();
    let id = milk(&mut store);
    let mut changed = Todo::new("buy oat milk".to_string(), "1l".to_string(), bob());
    changed.set_completed(true);
    assert_eq!(service.update(&mut store, id, alice(), &changed), Ok(true));
    assert_eq!(
        service.get_owned(&store, id, alice()),
        Ok(Todo {
            id: Some(id),
            title: "buy oat milk".to_string(),
            description: "1l".to_string(),
            completed: true,
            user_id: alice(),
        })
    );
}

#[test]
fn the_owner_deletes_the_task_once() {
    let service = TodoService::new();
    let mut store = TodoCollection::new();
    let id = milk(&mut store);
    let other = milk(&mut store);
    assert_eq!(service.delete(&mut store, id, alice()), Ok(true));
    assert_eq!(service.delete(&mut store, id, alice()), Ok(false));
    assert_eq!(service.get_owned(&store, id, alice()), Err(CustomError::NotFound));
    assert!(service.get_owned(&store, other, alice()).is_ok());
    assert_eq!(store.len(), 1);
}

#[test]
fn an_update_without_fields_changes_nothing_and_counts_as_written() {
    let service = TodoService::new();
    let mut store = TodoCollection::new();
    let id = milk(&mut store);
    let before = service.get_owned(&store, id, alice()).unwrap();
    let empty = UpdateTodoRequest { title: None, description: None, completed: None };
    let merged = empty.apply(before.clone());
    assert_eq!(merged, before);
    let (filter, doc) = service.update_todo(id, alice(), &merged);
    let result = store.update_one(&filter, &doc).unwrap();
    assert_eq!(result, UpdateResult { matched_count: 1, modified_count: 0 });
    assert_eq!(service.update_todo_result(Ok(result)), Ok(true));
    assert_eq!(service.get_owned(&store, id, alice()), Ok(before));
}

#[test]
fn an_update_to_the_same_values_twice_counts_as_written_twice() {
    let service = TodoService::new();
    let mut store = TodoCollection::new();
    let id = milk(&mut store);
    let changed = Todo::new("buy oat milk".to_string(), "1l".to_string(), alice());
    assert_eq!(service.update(&mut store, id, alice(), &changed), Ok(true));
    assert_eq!(service.update(&mut store, id, alice(), &changed), Ok(true));
}

#[test]
fn an_update_says_whether_values_changed() {
    let mut store = TodoCollection::new();
    let id = milk(&mut store);
    let filter = TodoFilter::owned_task(id, alice());
    let doc = TodoDocument {
        title: "buy milk".to_string(),
        description: "2%".to_string(),
        completed: true,
    };
    assert_eq!(
        store.update_one(&filter, &doc),
        Ok(UpdateResult { matched_count: 1, modified_count: 1 })
    );
    assert_eq!(
        store.update_one(&filter, &doc),
        Ok(UpdateResult { matched_count: 1, modified_count: 0 })
    );
    assert_eq!(
        store.update_one(&TodoFilter::owned_task(id, bob()), &doc),
        Ok(UpdateResult { matched_count: 0, modified_count: 0 })
    );
}

#[test]
fn the_collection_counts_and_finds_by_filter() {
    let mut store = TodoCollection::new();
    let id = milk(&mut store);
    milk(&mut store);
    TodoService::new()
        .create(&mut store, "walk".to_string(), "".to_string(), bob())
        .unwrap();
    assert_eq!(store.count_documents(&TodoFilter::owned_by(alice())), Ok(2));
    assert_eq!(store.count_documents(&TodoFilter::owned_by(bob())), Ok(1));
    assert_eq!(store.count_documents(&TodoFilter::owned_task(id, alice())), Ok(1));
    assert_eq!(store.count_documents(&TodoFilter::owned_task(id, bob())), Ok(0));
    assert_eq!(store.find(&TodoFilter::owned_by(bob())).unwrap().len(), 1);
    assert_eq!(
        store.find_one(&TodoFilter::owned_by(alice())).unwrap().unwrap().id,
        Some(id)
    );
    assert_eq!(store.find_one(&TodoFilter::owned_task(id, bob())), Ok(None));
    assert_eq!(store.delete_one(&TodoFilter::owned_by(alice())), Ok(1));
    assert_eq!(store.count_documents(&TodoFilter::owned_by(alice())), Ok(1));
}

#[test]
fn the_collection_refuses_a_task_that_brings_an_identity() {
    let mut store = TodoCollection::new();
    let mut todo = Todo::new("buy milk".to_string(), "2%".to_string(), alice());
    todo.id = Some(ObjectId::from_sequence_number(5));
    assert!(store.insert_one(todo).is_err());
    assert_eq!(store.len(), 0);
}

#[test]
fn a_filter_admits_by_owner_and_identity() {
    let mut todo = Todo::new("buy milk".to_string(), "2%".to_string(), alice());
    let id = ObjectId::from_sequence_number(1);
    assert!(TodoFilter::owned_by(alice()).matches(&todo));
    assert!(!TodoFilter::owned_by(bob()).matches(&todo));
    assert!(!TodoFilter::owned_task(id, alice()).matches(&todo));
    todo.id = Some(id);
    assert!(TodoFilter::owned_task(id, alice()).matches(&todo));
    assert!(!TodoFilter::owned_task(id, bob()).matches(&todo));
    assert!(!TodoFilter::owned_task(ObjectId::from_sequence_number(2), alice()).matches(&todo));
}

#[test]
fn storage_answers_are_read_by_the_service() {
    let service = TodoService::new();
    let id = ObjectId::from_sequence_number(3);
    assert_eq!(service.create_todo_result(Ok(Some(id))), Ok(id));
    assert_eq!(service.create_todo_result(Ok(None)), Err(CustomError::StorageError));
    assert_eq!(
        service.create_todo_result(Err("down".to_string())),
        Err(CustomError::StorageError)
    );
    assert_eq!(service.list_todos_result(Ok(vec![])), Ok(vec![]));
    assert_eq!(
        service.list_todos_result(Err("down".to_string())),
        Err(CustomError::StorageError)
    );
    assert_eq!(service.get_todo_result(Ok(None)), Err(CustomError::NotFound));
    assert_eq!(
        service.get_todo_result(Err("down".to_string())),
        Err(CustomError::StorageError)
    );
    let one = UpdateResult { matched_count: 1, modified_count: 0 };
    let none = UpdateResult { matched_count: 0, modified_count: 0 };
    assert_eq!(service.update_todo_result(Ok(one)), Ok(true));
    assert_eq!(service.update_todo_result(Ok(none)), Ok(false));
    assert_eq!(
        service.update_todo_result(Err("down".to_string())),
        Err(CustomError::StorageError)
    );
    assert_eq!(service.delete_todo_result(Ok(1)), Ok(true));
    assert_eq!(service.delete_todo_result(Ok(0)), Ok(false));
    assert_eq!(service.delete_todo_result(Ok(2)), Ok(false));
    assert_eq!(
        service.delete_todo_result(Err("down".to_string())),
        Err(CustomError::StorageError)
    );
}

#[test]
fn every_request_to_storage_names_the_caller() {
    let service = TodoService::new();
    let id = ObjectId::from_sequence_number(3);
    assert_eq!(service.list_todos(bob()).user_id, bob());
    assert_eq!(service.list_todos(bob()).id, None);
    for filter in [service.get_todo(id, bob()), service.delete_todo(id, bob())] {
        assert_eq!(filter.user_id, bob());
        assert_eq!(filter.id, Some(id));
    }
    let todo = Todo::new("t".to_string(), "d".to_string(), alice());
    let (filter, doc) = service.update_todo(id, bob(), &todo);
    assert_eq!(filter.user_id, bob());
    assert_eq!(filter.id, Some(id));
    assert_eq!(doc, todo.to_doc());
    assert_eq!(service.create_todo("t".to_string(), "d".to_string(), bob()).user_id, bob());
}

#[test]
fn a_fresh_collection_numbers_its_tasks_from_zero() {
    let mut store = TodoCollection::new();
    assert_eq!(store.len(), 0);
    assert_eq!(milk(&mut store), ObjectId::from_sequence_number(0));
    assert_eq!(milk(&mut store), ObjectId::from_sequence_number(1));
    assert_eq!(milk(&mut store), ObjectId::from_sequence_number(2));
}

#[test]
fn an_identity_is_not_assigned_again_after_its_task_is_removed() {
    let service = TodoService::new();
    let mut store = TodoCollection::new();
    let first = milk(&mut store);
    let second = milk(&mut store);
    assert_eq!(service.delete(&mut store, second, alice()), Ok(true));
    assert_eq!(service.delete(&mut store, first, alice()), Ok(true));
    assert_eq!(store.len(), 0);
    assert_eq!(milk(&mut store), ObjectId::from_sequence_number(2));
}

#[test]
fn a_refused_task_uses_up_no_identity() {
    let mut store = TodoCollection::new();
    let mut todo = Todo::new("buy milk".to_string(), "2%".to_string(), alice());
    todo.id = Some(ObjectId::from_sequence_number(0));
    assert!(store.insert_one(todo).is_err());
    assert_eq!(milk(&mut store), ObjectId::from_sequence_number(0));
}
