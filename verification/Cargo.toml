[package]
name = "atmo_monitor"
version = "0.1.0"
edition = "2021"
publish = false

[dependencies]
bme680 = "=0.6.0"
defmt = "=1.2.0"
embassy-executor = { version = "=0.9.1", features = ["arch-std", "executor-thread"] }
embassy-futures = "=0.1.2"
embassy-stm32 = { version = "=0.6.0", features = ["stm32f303re", "time-driver-any"] }
embassy-sync = "=0.8.0"
embassy-time = "=0.5.1"
embedded-graphics = "=0.8.2"
embedded-hal = "=0.2.7"
heapless = "=0.8.0"
il0373 = "=0.2.0"
micromath = "=2.1.0"
nb = "=1.1.0"
pms-7003 = "=0.3.0"
profont = "=0.7.0"
static_cell = "=2.1.1"
