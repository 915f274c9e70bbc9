# mtio

The Linux SCSI tape driver (`/dev/nst*`, `/dev/st*`) in Rust, with its logic
verified by Verus, and an in-memory tape for tests.

## Layout

- `src/` is the verified library.
  - `tape`: the `Tape` trait, the operations common to all tape devices.
  - `mock`: `MockTape`, an in-memory tape with filemarks, overwriting, write
    protection and fixed or variable-length blocks.
  - `model`: the mathematical state of such a tape, and the state after each
    operation. The contracts of `MockTape` are stated over it.
  - `laws`: what holds of every tape, such as that reads give back what was
    written.
  - `device`: the `ioctl(2)` argument of each operation, and the reading of the
    driver's replies.
  - `ioctl`, `status`, `error`: operation codes, drive status, errors.
- `app/` drives a real device: it opens the device file, makes the system calls,
  and gives the library's types the standard library's traits.
- `tests/` runs the library on concrete tapes.

## Use

```rust
use mtio::{MockTape, Tape};

let mut tape = MockTape::new();
tape.write(b"header").unwrap();
tape.write_filemarks(1).unwrap();
tape.write(b"payload").unwrap();
tape.write_filemarks(2).unwrap();

tape.rewind().unwrap();
let mut buf = [0u8; 6];
assert_eq!(tape.read(&mut buf).unwrap(), 6);
assert_eq!(&buf, b"header");
```

A read returns zero bytes at a filemark and leaves the head at the start of the
next tape file. On blank tape, `MockTape` returns zero bytes twice, and an error
from then on.

`MockTape` always has a tape loaded, also after `unload`, which leaves it at the
start. It keeps the bytes of a tape file as one
stream, without record boundaries: in variable-length mode a read may end inside
a record, and spacing over records does nothing.

The counters of a tape's head are finite. `Tape::accepts` tells whether a call
can be carried out in the present state; callers that are not verified ask it
before calls that move the head very far.
