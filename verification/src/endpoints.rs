//! The endpoints of the service, relative to its address, and the fixed names that
//! requests to them carry.

use vstd::prelude::*;

verus! {

/// Fetches the full user data.
pub const USER_DATA_GET: &'static str = "data/user-data/get";

/// Takes operations on shopping lists and their items.
pub const SHOPPING_LISTS_UPDATE: &'static str = "data/shopping-lists/update";

/// Takes operations on the stores, store filters and categories of a list.
pub const SHOPPING_LISTS_UPDATE_V2: &'static str = "data/shopping-lists/update-v2";

/// Takes operations on starter lists and their items.
pub const STARTER_LISTS_UPDATE: &'static str = "data/starter-lists/update";

/// Takes operations on recipes and recipe collections.
pub const USER_RECIPE_DATA_UPDATE: &'static str = "data/user-recipe-data/update";

/// Takes operations on the meal-planning calendar.
pub const MEAL_PLANNING_UPDATE: &'static str = "meal-planning/update";

/// Fetches the account info.
pub const ACCOUNT_INFO: &'static str = "data/account/info";

/// Switches the iCalendar export of the meal-planning calendar on or off.
pub const SET_ICALENDAR_ENABLED: &'static str = "/data/meal-planning-calendar/set-icalendar-enabled";

/// Name of the form part that carries the iCalendar request.
pub const ICALENDAR_REQUEST_PART: &'static str = "icalendar_request";

/// Exchanges email and password for tokens.
pub const AUTH_TOKEN: &'static str = "auth/token";

/// Exchanges a refresh token for new tokens.
pub const AUTH_TOKEN_REFRESH: &'static str = "auth/token/refresh";

/// Header that carries a signed user ID in place of a session.
pub const SIGNED_USER_ID_HEADER: &'static str = "X-AnyLeaf-Signed-User-ID";

/// Content type of every message body.
pub const PROTOBUF_CONTENT_TYPE: &'static str = "application/x-protobuf";

} // verus!
