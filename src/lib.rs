//! Core of a handheld-console emulator: the picture processing unit, the audio processing unit
//! and the ROM-only cartridge, each with its bus contract proved.

pub mod apu;
pub mod envelope;
pub mod mbc;
pub mod noise;
pub mod ppu;
pub mod pulse;
pub mod render;
pub mod timing;
pub mod wave;
