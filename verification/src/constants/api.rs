//! Header names, base addresses and content types.

use vstd::prelude::*;

verus! {

/// Header that carries the API key of a signed request.
pub const BYBIT_API_KEY_HEADER: &'static str = "X-BAPI-API-KEY";

/// Header that carries the time of a signed request, in milliseconds.
pub const BYBIT_TIMESTAMP_HEADER: &'static str = "X-BAPI-TIMESTAMP";

/// Header that carries the receive window of a signed request.
pub const BYBIT_RECV_WINDOW_HEADER: &'static str = "X-BAPI-RECV-WINDOW";

/// Header that carries the signature of a signed request.
pub const BYBIT_SIGN_HEADER: &'static str = "X-BAPI-SIGN";

/// The receive window sent with every signed request, in milliseconds.
pub const BYBIT_RECV_WINDOW: &'static str = "20000";

/// Where the exchange API lives.
pub const BYBIT_BASE_URL: &'static str = "https://api.bybit.com/v5";

/// Where the chat bot API lives.
pub const TELEGRAM_BASE_URL: &'static str = "https://api.telegram.org";

/// Header that names the kind of a request body.
pub const CONTENT_TYPE_HEADER: &'static str = "Content-Type";

/// The kind of a JSON body.
pub const CONTENT_TYPE_JSON: &'static str = "application/json";

} // verus!
