//! What the service answers, from what the database gave.
pub mod carts;
pub mod recipes;

use crate::number::{append_decimal, decimal};
use vstd::prelude::*;
use vstd::string::StringExecFns;

verus! {

/// The message for a cart that is not there.
pub open spec fn no_cart_found(cart_id: i32) -> Seq<char> {
    "No cart found with id "@ + decimal(cart_id as int)
}

/// The message for a recipe that is not there.
pub open spec fn no_recipe_found(recipe_id: i32) -> Seq<char> {
    "No recipe found with id "@ + decimal(recipe_id as int)
}

/// The message for a recipe whose name is taken.
pub open spec fn recipe_already_exists(name: Seq<char>) -> Seq<char> {
    "Recipe already exists: "@ + name
}

pub fn no_cart_found_message(cart_id: i32) -> (message: String)
    ensures
        message@ == no_cart_found(cart_id),
{
    let mut message = String::from_str("No cart found with id ");
    append_decimal(&mut message, cart_id);
    message
}

pub fn no_recipe_found_message(recipe_id: i32) -> (message: String)
    ensures
        message@ == no_recipe_found(recipe_id),
{
    let mut message = String::from_str("No recipe found with id ");
    append_decimal(&mut message, recipe_id);
    message
}

pub fn recipe_already_exists_message(name: &str) -> (message: String)
    ensures
        message@ == recipe_already_exists(name@),
{
    String::from_str("Recipe already exists: ").concat(name)
}

} // verus!
