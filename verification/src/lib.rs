//! A client library for the AnyList grocery-list service whose decision logic is
//! machine-checked: the real-time connection lifecycle, the wire vocabulary and the
//! request builders carry contracts that Verus proves.

pub mod categories;
pub mod client;
pub mod collections;
pub mod endpoints;
pub mod error;
pub mod favourites;
pub mod icalendar;
pub mod items;
pub mod lists;
pub mod meal_planning;
pub mod operations;
pub mod protobuf;
pub mod realtime;
pub mod recipes;
pub mod requests;
pub mod sequences;
pub mod stores;
pub mod text;
pub mod utils;

// Re-export commonly used types
pub use client::{AuthEvent, AuthState, SavedTokens};
pub use error::{AnyListError, Result};
pub use realtime::{ConnectionState, RealtimeSync, SyncEvent};

// Re-export data structures
pub use categories::{Category, CategoryGroup};
pub use collections::RecipeCollection;
pub use lists::{List, ListItem};
pub use meal_planning::MealPlanEvent;
pub use recipes::{Ingredient, Recipe};
pub use stores::Store;
