pub mod gas_station_sync;
