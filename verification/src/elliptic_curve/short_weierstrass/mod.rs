pub mod curves;
