use lily_cms::endpoints::resolve_endpoints;
use lily_cms::errors::BuildError;
use lily_cms::routes::{HttpMethod, Routes};
use lily_cms::text::{same_text, snake_case_with, to_snake_case};

#[test]
fn snake_case_of_camel_case_names() {
    assert_eq!(to_snake_case("BlogPost"), "blog_post");
    assert_eq!(to_snake_case("Content"), "content");
    assert_eq!(to_snake_case("lowerCamelCase"), "lower_camel_case");
    assert_eq!(to_snake_case("already_snake"), "already_snake");
    assert_eq!(to_snake_case(""), "");
}

#[test]
fn text_helpers() {
    assert!(same_text("read_one", "read_one"));
    assert!(!same_text("read_one", "read_on"));
}

#[test]
fn operation_names() {
    let names: Vec<&str> = Routes::all().iter().map(|r| r.get_path()).collect();
    assert_eq!(
        names,
        vec![
            "create_one",
            "create_many",
            "read_one",
            "read_many",
            "replace_one",
            "replace_many",
            "update_one",
            "update_many",
            "delete_one",
            "delete_many"
        ]
    );
    for (i, r) in Routes::all().iter().enumerate() {
        assert_eq!(r.index(), i);
        assert_eq!(Routes::from_name(r.get_path()), Some(*r));
    }
    assert_eq!(Routes::from_name("create_single"), None);
    assert_eq!(Routes::from_name(""), None);
}

#[test]
fn route_table_methods_and_paths() {
    let cases = [
        (Routes::CreateOne, Some(HttpMethod::Post), Some("/blog_post")),
        (Routes::ReadOne, Some(HttpMethod::Get), Some("/blog_post/{id}")),
        (Routes::ReadMany, Some(HttpMethod::Get), Some("/blog_post")),
        (Routes::UpdateOne, Some(HttpMethod::Patch), Some("/blog_post/{id}")),
        (Routes::ReplaceOne, Some(HttpMethod::Put), Some("/blog_post/{id}")),
        (Routes::DeleteOne, Some(HttpMethod::Delete), Some("/blog_post/{id}")),
        (Routes::CreateMany, None, None),
        (Routes::UpdateMany, None, None),
        (Routes::ReplaceMany, None, None),
        (Routes::DeleteMany, None, None),
    ];
    for (op, method, path) in cases {
        assert_eq!(op.method(), method);
        assert_eq!(op.path_template("blog_post").as_deref(), path);
    }
    assert_eq!(HttpMethod::Patch.as_str(), "PATCH");
    assert_eq!(HttpMethod::Delete.as_str(), "DELETE");
}

fn names(list: &[&str]) -> Vec<String> {
    list.iter().map(|s| s.to_string()).collect()
}

#[test]
fn empty_allow_list_enables_everything() {
    let set = resolve_endpoints(&Vec::new()).unwrap();
    for op in Routes::all() {
        assert!(set.contains(op));
    }
}

#[test]
fn allow_list_enables_exactly_the_named_operations() {
    let set = resolve_endpoints(&names(&["read_one", "create_one", "read_one"])).unwrap();
    for op in Routes::all() {
        let expected = op == Routes::ReadOne || op == Routes::CreateOne;
        assert_eq!(set.contains(op), expected);
    }
}

#[test]
fn unknown_operation_is_rejected() {
    let r = resolve_endpoints(&names(&["read_one", "read_single", "bogus"]));
    assert_eq!(r.err(), Some(BuildError::UnknownOperation("read_single".to_string())));
}

#[test]
fn snake_case_from_character_classes() {
    let upper = vec![false, false, false, false, false, true, false, false, false, false, true, false, false, false, false];
    let lower = vec!['l', 'o', 'w', 'e', 'r', 'c', 'a', 'm', 'e', 'l', 'c', 'a', 's', 'e', 'x'];
    assert_eq!(snake_case_with("lowerCamelCase", &upper[..14].to_vec(), &lower[..14].to_vec()), "lower_camel_case");
    assert_eq!(snake_case_with("Ab", &vec![true, false], &vec!['a', 'b']), "ab");
    assert_eq!(snake_case_with("", &vec![], &vec![]), "");
}
