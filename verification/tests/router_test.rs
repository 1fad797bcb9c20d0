use cooking_book::models::Data;
use cooking_book::number::append_decimal;
use cooking_book::response::{ErrorResponder, Errors, HTTPError, SuccessResponder};
use cooking_book::router::carts;
use cooking_book::router::carts::{AddRecipeEvent, AddRecipeStep};
use cooking_book::router::recipes;
use cooking_book::router::{
    no_cart_found_message, no_recipe_found_message, recipe_already_exists_message,
};
use cooking_book::store::StoreError;

fn failure(status_code: u16, message: &str) -> Errors {
    Errors {
        errors: vec![HTTPError {
            status_code,
            message: message.to_owned(),
        }],
    }
}

fn not_found(message: &str) -> ErrorResponder {
    ErrorResponder::NotFound(failure(404, message))
}

fn database_error() -> ErrorResponder {
    ErrorResponder::InternalServerError(failure(500, "Database error"))
}

fn decimal(n: i32) -> String {
    let mut text = String::new();
    append_decimal(&mut text, n);
    text
}

#[test]
fn numbers_are_written_in_decimal() {
    assert_eq!(decimal(0), "0");
    assert_eq!(decimal(7), "7");
    assert_eq!(decimal(10), "10");
    assert_eq!(decimal(1905), "1905");
    assert_eq!(decimal(-1), "-1");
    assert_eq!(decimal(-120), "-120");
    assert_eq!(decimal(i32::MAX), "2147483647");
    assert_eq!(decimal(i32::MIN), "-2147483648");
    for n in -1000..1000 {
        assert_eq!(decimal(n), n.to_string());
    }
}

#[test]
fn numbers_are_written_after_what_is_there() {
    let mut text = "id ".to_owned();
    append_decimal(&mut text, 42);
    assert_eq!(text, "id 42");
    append_decimal(&mut text, -3);
    assert_eq!(text, "id 42-3");
}

#[test]
fn messages_name_what_is_missing_or_taken() {
    assert_eq!(no_cart_found_message(12), "No cart found with id 12");
    assert_eq!(no_cart_found_message(-5), "No cart found with id -5");
    assert_eq!(no_recipe_found_message(0), "No recipe found with id 0");
    assert_eq!(
        recipe_already_exists_message("Saucisses aux lentilles"),
        "Recipe already exists: Saucisses aux lentilles"
    );
    assert_eq!(recipe_already_exists_message(""), "Recipe already exists: ");
}

#[test]
fn created_cart_is_answered_with_201() {
    assert_eq!(
        carts::create(Ok("cart")),
        Ok(SuccessResponder::Created(Data { data: "cart" }))
    );
}

#[test]
fn failed_cart_creation_is_answered_with_500() {
    for error in [
        StoreError::NotFound,
        StoreError::UniqueViolation,
        StoreError::ForeignKeyViolation,
        StoreError::Other,
    ] {
        assert_eq!(carts::create::<i32>(Err(error)), Err(database_error()));
    }
}

#[test]
fn cart_is_retrieved_or_reported_missing() {
    assert_eq!(
        carts::retrieve(3, Ok("cart")),
        Ok(SuccessResponder::Okay(Data { data: "cart" }))
    );
    assert_eq!(
        carts::retrieve::<i32>(3, Err(StoreError::NotFound)),
        Err(not_found("No cart found with id 3"))
    );
    assert_eq!(
        carts::retrieve::<i32>(3, Err(StoreError::Other)),
        Err(database_error())
    );
    assert_eq!(
        carts::retrieve::<i32>(3, Err(StoreError::UniqueViolation)),
        Err(database_error())
    );
}

#[test]
fn cart_is_deleted_or_reported_missing() {
    assert_eq!(carts::delete(8, Ok(1)), Ok(SuccessResponder::NoContent(())));
    assert_eq!(carts::delete(8, Ok(2)), Ok(SuccessResponder::NoContent(())));
    assert_eq!(
        carts::delete(8, Ok(0)),
        Err(not_found("No cart found with id 8"))
    );
    assert_eq!(carts::delete(8, Err(StoreError::Other)), Err(database_error()));
    assert_eq!(
        carts::delete(8, Err(StoreError::NotFound)),
        Err(database_error())
    );
}

#[test]
fn recipe_in_cart_leads_to_reading_the_cart() {
    let step = carts::add_recipe::<i32>(1, 2, AddRecipeEvent::Inserted(Ok(1)));
    assert!(matches!(step, AddRecipeStep::FetchCart));
}

#[test]
fn refused_pair_leads_to_looking_for_the_cart() {
    let step = carts::add_recipe::<i32>(
        1,
        2,
        AddRecipeEvent::Inserted(Err(StoreError::ForeignKeyViolation)),
    );
    assert!(matches!(step, AddRecipeStep::LookUpCart));
}

#[test]
fn other_failure_of_the_insertion_is_answered_with_500() {
    for error in [
        StoreError::NotFound,
        StoreError::UniqueViolation,
        StoreError::Other,
    ] {
        let step = carts::add_recipe::<i32>(1, 2, AddRecipeEvent::Inserted(Err(error)));
        let AddRecipeStep::Answer(answer) = step else {
            panic!("an answer was expected");
        };
        assert_eq!(answer, Err(database_error()));
    }
}

#[test]
fn missing_cart_or_recipe_is_named() {
    let AddRecipeStep::Answer(answer) =
        carts::add_recipe::<i32>(1, 2, AddRecipeEvent::CartLookedUp(false))
    else {
        panic!("an answer was expected");
    };
    assert_eq!(answer, Err(not_found("No cart found with id 1")));
    let AddRecipeStep::Answer(answer) =
        carts::add_recipe::<i32>(1, 2, AddRecipeEvent::CartLookedUp(true))
    else {
        panic!("an answer was expected");
    };
    assert_eq!(answer, Err(not_found("No recipe found with id 2")));
}

#[test]
fn cart_with_new_recipe_is_answered_with_200() {
    let AddRecipeStep::Answer(answer) =
        carts::add_recipe(1, 2, AddRecipeEvent::CartFetched(Ok("cart")))
    else {
        panic!("an answer was expected");
    };
    assert_eq!(answer, Ok(SuccessResponder::Okay(Data { data: "cart" })));
    let AddRecipeStep::Answer(answer) =
        carts::add_recipe::<i32>(1, 2, AddRecipeEvent::CartFetched(Err(StoreError::NotFound)))
    else {
        panic!("an answer was expected");
    };
    assert_eq!(answer, Err(database_error()));
}

#[test]
fn recipe_is_created_or_reported_taken() {
    assert_eq!(
        recipes::create("Tapenade", Ok(5)),
        Ok(SuccessResponder::Created(Data { data: 5 }))
    );
    assert_eq!(
        recipes::create::<i32>("Tapenade", Err(StoreError::UniqueViolation)),
        Err(ErrorResponder::Conflict(failure(
            409,
            "Recipe already exists: Tapenade"
        )))
    );
    assert_eq!(
        recipes::create::<i32>("Tapenade", Err(StoreError::ForeignKeyViolation)),
        Err(database_error())
    );
    assert_eq!(
        recipes::create::<i32>("Tapenade", Err(StoreError::NotFound)),
        Err(database_error())
    );
}

#[test]
fn all_recipes_are_retrieved() {
    assert_eq!(
        recipes::retrieve_all(Ok(vec![1, 2])),
        Ok(SuccessResponder::Okay(Data { data: vec![1, 2] }))
    );
    assert_eq!(
        recipes::retrieve_all::<i32>(Err(StoreError::NotFound)),
        Err(database_error())
    );
}

#[test]
fn recipe_is_retrieved_or_reported_missing() {
    assert_eq!(
        recipes::retrieve(9, Ok("recipe")),
        Ok(SuccessResponder::Okay(Data { data: "recipe" }))
    );
    assert_eq!(
        recipes::retrieve::<i32>(9, Err(StoreError::NotFound)),
        Err(not_found("No recipe found with id 9"))
    );
    assert_eq!(
        recipes::retrieve::<i32>(9, Err(StoreError::Other)),
        Err(database_error())
    );
}
