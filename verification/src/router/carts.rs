//! The answers about carts.
use crate::models::Data;
use crate::response::{
    created, internal_server_error, no_content, not_found_error, ok, EmptyHttpResult,
    HttpResult, SuccessResponder,
};
use crate::router::{
    no_cart_found, no_cart_found_message, no_recipe_found, no_recipe_found_message,
};
use crate::store::StoreError;
use vstd::prelude::*;

verus! {

/// What happened last while a recipe is added to a cart.
pub enum AddRecipeEvent<T> {
    /// The recipe was put into the cart, or could not be.
    Inserted(Result<usize, StoreError>),
    /// The cart was looked for, and was there or not.
    CartLookedUp(bool),
    /// The cart was read with its recipes, or could not be.
    CartFetched(Result<T, StoreError>),
}

/// What to do next while a recipe is added to a cart.
pub enum AddRecipeStep<T> {
    /// Look whether the cart is there.
    LookUpCart,
    /// Read the cart with its recipes.
    FetchCart,
    /// Answer, and stop.
    Answer(HttpResult<T>),
}

/// The answer to the creation of a cart: 201 with the cart, 500 on any
/// failure.
pub fn create<T>(inserted: Result<T, StoreError>) -> (answer: HttpResult<T>)
    ensures
        (match inserted {
            Ok(cart) => answer matches Ok(responder) && responder
                == SuccessResponder::Created(Data { data: cart }),
            Err(_) => answer matches Err(responder) && responder.is_database_error(),
        }),
{
    match inserted {
        Ok(cart) => Ok(created(Data { data: cart })),
        Err(_) => Err(internal_server_error()),
    }
}

/// The answer to the request for one cart: 200 with it, 404 when it is not
/// there, 500 on any other failure.
pub fn retrieve<T>(cart_id: i32, fetched: Result<T, StoreError>) -> (answer: HttpResult<T>)
    ensures
        (match fetched {
            Ok(cart) => answer matches Ok(responder) && responder
                == SuccessResponder::Okay(Data { data: cart }),
            Err(StoreError::NotFound) => answer matches Err(responder) && responder.is_not_found(
                no_cart_found(cart_id),
            ),
            Err(_) => answer matches Err(responder) && responder.is_database_error(),
        }),
{
    match fetched {
        Ok(cart) => Ok(ok(Data { data: cart })),
        Err(StoreError::NotFound) => Err(not_found_error(no_cart_found_message(cart_id))),
        Err(_) => Err(internal_server_error()),
    }
}

/// The answer to the deletion of a cart, from the number of rows that were
/// deleted: 204 when there was one, 404 when there was none, 500 on any
/// failure.
pub fn delete(cart_id: i32, deleted: Result<usize, StoreError>) -> (answer: EmptyHttpResult)
    ensures
        (match deleted {
            Ok(records) => if records == 0 {
                answer matches Err(responder) && responder.is_not_found(no_cart_found(cart_id))
            } else {
                answer matches Ok(responder) && responder == SuccessResponder::<()>::NoContent(())
            },
            Err(_) => answer matches Err(responder) && responder.is_database_error(),
        }),
{
    match deleted {
        Ok(records) => {
            if records == 0 {
                Err(not_found_error(no_cart_found_message(cart_id)))
            } else {
                Ok(no_content())
            }
        },
        Err(_) => Err(internal_server_error()),
    }
}

/// The next step while the recipe `recipe_id` is added to the cart
/// `cart_id`.
///
/// Once the recipe is in the cart, the cart is read and sent with 200.
/// When the database refuses the pair because one of the two is not there,
/// the cart is looked for, and the answer is 404 for the cart if it is
/// missing and 404 for the recipe if it is not. Any other failure gives 500.
pub fn add_recipe<T>(cart_id: i32, recipe_id: i32, event: AddRecipeEvent<T>) -> (step:
    AddRecipeStep<T>)
    ensures
        (match event {
            AddRecipeEvent::Inserted(Ok(_)) => step is FetchCart,
            AddRecipeEvent::Inserted(Err(StoreError::ForeignKeyViolation)) => step is LookUpCart,
            AddRecipeEvent::Inserted(Err(_)) => step matches AddRecipeStep::Answer(Err(responder))
                && responder.is_database_error(),
            AddRecipeEvent::CartLookedUp(found) => step matches AddRecipeStep::Answer(
                Err(responder),
            ) && responder.is_not_found(
                if found {
                    no_recipe_found(recipe_id)
                } else {
                    no_cart_found(cart_id)
                },
            ),
            AddRecipeEvent::CartFetched(Ok(cart)) => step matches AddRecipeStep::Answer(
                Ok(responder),
            ) && responder == SuccessResponder::Okay(Data { data: cart }),
            AddRecipeEvent::CartFetched(Err(_)) => step matches AddRecipeStep::Answer(
                Err(responder),
            ) && responder.is_database_error(),
        }),
{
    match event {
        AddRecipeEvent::Inserted(Ok(_)) => AddRecipeStep::FetchCart,
        AddRecipeEvent::Inserted(Err(StoreError::ForeignKeyViolation)) => AddRecipeStep::LookUpCart,
        AddRecipeEvent::Inserted(Err(_)) => AddRecipeStep::Answer(Err(internal_server_error())),
        AddRecipeEvent::CartLookedUp(found) => {
            if found {
                AddRecipeStep::Answer(Err(not_found_error(no_recipe_found_message(recipe_id))))
            } else {
                AddRecipeStep::Answer(Err(not_found_error(no_cart_found_message(cart_id))))
            }
        },
        AddRecipeEvent::CartFetched(Ok(cart)) => AddRecipeStep::Answer(Ok(ok(Data { data: cart }))),
        AddRecipeEvent::CartFetched(Err(_)) => AddRecipeStep::Answer(Err(internal_server_error())),
    }
}

} // verus!
