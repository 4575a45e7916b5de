//! A minimal verified virtual CPU: sixteen 8-bit registers, 4 KiB of
//! byte-addressable memory shared by code and data, a program counter, and a
//! sixteen-entry call stack. Instructions are 16-bit big-endian words split
//! into four 4-bit fields; the fetch-decode-execute loop runs until a zero
//! word halts the machine, the program counter runs off the top of memory,
//! or a call-stack fault occurs.

pub mod cpu;
pub mod model;
