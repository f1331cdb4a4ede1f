//! Build-orchestration and live-reload core of a static-site development
//! server: the build state machine, the debounced change detector, the
//! reload hub, and the minimal HTTP request/response handling that serves
//! the generated page, build status, and live-reload event frames.

mod detector;
mod http;
mod hub;
mod pages;
mod router;
mod runner;
mod scaffold;
mod state;
mod text;

pub use detector::ChangeDetector;
pub use detector::DEBOUNCE_MS;
pub use detector::debounce_ok;
pub use detector::finish_build;
pub use detector::first_live_path;
pub use detector::fs_event_accepted;
pub use detector::has_live_path;
pub use detector::is_noisy_path;
pub use detector::lemma_debounce_coalesces;
pub use detector::lemma_manual_deferred_once;
pub use detector::noisy_path;
pub use detector::poll_accepted;
pub use detector::poll_advanced;
pub use http::Request;
pub use http::Response;
pub use http::finalize_response;
pub use http::head_text;
pub use http::header_lookup;
pub use http::method_text;
pub use http::parse_request;
pub use http::parsed_headers;
pub use http::path_text;
pub use http::render_response;
pub use http::request_line_ok;
pub use hub::ReloadHub;
pub use hub::broadcast_reload;
pub use hub::count_true;
pub use hub::lemma_broadcast_all_live;
pub use hub::lemma_broadcast_no_subscribers;
pub use hub::lemma_broadcast_one_dead;
pub use hub::lemma_prune_never_grows;
pub use hub::prune;
pub use pages::BUILDING_PAGE;
pub use pages::CLOSE_BODY;
pub use pages::ERROR_PAGE_POST;
pub use pages::ERROR_PAGE_PRE;
pub use pages::LIVE_RELOAD_SCRIPT;
pub use pages::NOT_FOUND_PAGE;
pub use pages::NO_OUTPUT_PAGE;
pub use pages::RELOAD_SNIPPET;
pub use pages::STATUS_BAR_SCRIPT;
pub use pages::error_page_text;
pub use pages::inject_reload_script;
pub use pages::injected_text;
pub use pages::lemma_injection_wellformed;
pub use pages::serve_building_page;
pub use pages::serve_error_page;
pub use pages::serve_live_reload_script;
pub use pages::serve_no_output_page;
pub use pages::serve_status_bar_script;
pub use pages::sse_frame;
pub use pages::sse_keepalive_frame;
pub use pages::sse_preamble;
pub use router::ARTIFACT_PATH;
pub use router::ASSETS_DIR;
pub use router::OUTPUT_DIR;
pub use router::ServeContext;
pub use router::content_type_for;
pub use router::content_type_text;
pub use router::generated_body_text;
pub use router::has_dotdot;
pub use router::spa_route;
pub use router::special_route;
pub use router::handle_request;
pub use router::serve_generated_html;
pub use router::serve_static_file;
pub use router::static_target;
pub use router::wants_static_file;
pub use runner::BuildOutcome;
pub use runner::StepOutput;
pub use runner::classify_build;
pub use scaffold::ProjectNameError;
pub use scaffold::entry_point_template;
pub use scaffold::gitignore_template;
pub use scaffold::package_manifest;
pub use scaffold::validate_project_name;
pub use state::AppState;
pub use state::BuildPhase;
pub use state::BuildState;
pub use state::build_status_text;
pub use state::get_build_status;
pub use state::is_terminal;
pub use state::lemma_trace_orders_transitions;
pub use state::phase_of;
pub use state::set_build_status;
pub use state::status_text;
pub use state::valid_step;
pub use state::wf_trace;
pub use text::contains_seq;
pub use text::escape_text;
pub use text::first_match_at;
pub use text::html_escape;
pub use text::match_at;
