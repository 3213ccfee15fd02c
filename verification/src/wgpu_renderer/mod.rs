pub mod perf_monitor;
