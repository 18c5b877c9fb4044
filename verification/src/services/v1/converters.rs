pub mod api_error_converter_service;
