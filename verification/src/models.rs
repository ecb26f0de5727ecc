pub mod client_requests;
pub mod exit_code;
pub mod game_action;
pub mod http_response;
pub mod init_server;
pub mod settings;
