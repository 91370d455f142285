//! A verified core for a local development static-file server: request-path
//! resolution, precompressed-asset negotiation, live-reload script injection,
//! response shaping, a bounded reload broadcast bus, and TLS-material loading.

mod bus;
mod config;
mod html;
mod resolve;
mod response;
mod tls;

pub use tls::ListenPlan;
pub use tls::TlsError;
pub use tls::build_tls_config;
pub use tls::cert_path_or_default;
pub use tls::key_path_or_default;
pub use tls::lemma_tls_degrades_to_http;
pub use tls::listener_plan;
pub use tls::pem_certs_of;
pub use tls::pem_keys_of;
pub use tls::plan_listeners;
pub use tls::tls_accepts;
pub use tls::tls_failure_of;

pub use response::Body;
pub use response::Header;
pub use response::HttpResponse;
pub use response::default_not_found_body;
pub use response::encoding_token;
pub use response::error_page;
pub use response::error_response;
pub use response::header_views;
pub use response::html_headers;
pub use response::html_post;
pub use response::html_response;
pub use response::lemma_static_asset_idempotent;
pub use response::mime_for;
pub use response::not_found_response;
pub use response::precompressed_content_type;
pub use response::precompressed_headers;
pub use response::not_found_post;
pub use response::precompressed_post;
pub use response::precompressed_response;
pub use response::serve_html;

pub use html::body_close_tag;
pub use html::first_match;
pub use html::first_match_from;
pub use html::inject_live_reload;
pub use html::injected;
pub use html::lemma_injection_round_trip;
pub use html::live_reload_script;
pub use html::match_at;
pub use html::reload_script;

pub use bus::BUS_CAPACITY;
pub use bus::ReloadBus;
pub use bus::ReloadReceiver;
pub use bus::WsFrame;
pub use bus::lemma_broadcast_fanout;
pub use bus::lemma_late_subscriber_sees_nothing;
pub use bus::note_fs_event;
pub use bus::pending;
pub use bus::receiver_wf;
pub use bus::reload_text;
pub use bus::session_on_frame;
pub use bus::session_on_tick;
pub use config::ServeConfig;
pub use config::ssl_port_of;
pub use resolve::AssetKind;
pub use resolve::Compression;
pub use resolve::base_name;
pub use resolve::base_of;
pub use resolve::classify;
pub use resolve::classify_asset;
pub use resolve::ends_with;
pub use resolve::ends_with_exec;
pub use resolve::has_extension;
pub use resolve::has_traversal;
pub use resolve::is_safe_path;
pub use resolve::lemma_empty_path_resolves_to_index;
pub use resolve::ResolvedRequest;
pub use resolve::lemma_no_extension_appends_html;
pub use resolve::resolve_request;
pub use resolve::resolve_request_path;
pub use resolve::resolved_path;
