// Driver logic for a pulse-oximeter optical sensor on a two-wire register
// bus, written without I/O: the initializer and the polling loop are state
// machines that say which bus transaction to carry out next and what to make
// of its outcome.

pub mod bus;
pub mod decode;
pub mod fifo;
pub mod init;
pub mod poll;
pub mod quality;
pub mod registers;
pub mod text;
