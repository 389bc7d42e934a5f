//! Command proxy layer of the AngstromSCD desktop shell.
//!
//! Every command of the user interface is forwarded to one endpoint of the
//! backend, and every outcome of that exchange, whether the transport
//! failed, the body could not be decoded or the call went well, comes back
//! as one [`ApiResponse`]. The library performs no I/O: a command hands out
//! the [`ProxyRequest`] to send and later takes what the exchange produced.
//!
//! - [`envelope`]: the response envelope and its invariant.
//! - [`proxy`]: requests, the backend address, and how an exchange settles.
//! - [`api`]: the commands, their requests and the payloads they expect.
//! - [`shape`]: reading the members of a JSON object.
//! - [`json`]: the boundary to `serde_json`.
//! - [`text`]: decimal numerals and the greeting.
//! - [`native`]: decisions of the window commands.

pub mod api;
pub mod envelope;
pub mod json;
pub mod native;
pub mod proxy;
pub mod shape;
pub mod text;

pub use api::{
    decode_chat_response, decode_literature_result, decode_literature_results, decode_voe_alert,
    decode_voe_alerts, fetch_api_data, fetch_api_data_request, get_voe_alerts,
    get_voe_alerts_request, search_literature, search_literature_request, send_chat_message,
    send_chat_message_request, ChatMessage, ChatResponse, LiteratureResult, VoeAlert,
};
pub use envelope::ApiResponse;
pub use native::{maximize_window, toggle_fullscreen, WindowAction};
pub use proxy::{parse_body, settle, HttpMethod, ProxyRequest, BACKEND_BASE, DECODE_FAILURE};
pub use text::greet;
