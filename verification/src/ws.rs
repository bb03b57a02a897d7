pub mod wsclient;
