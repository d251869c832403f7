pub mod inmemory;
