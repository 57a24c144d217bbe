pub mod ns_number_formatter;
