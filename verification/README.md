# x11_data_transfer

Drag-and-drop and clipboard transfers over the X11 selection protocols, verified with Verus.

The library in `src/` holds the state of all transfers of one X11 client and decides every step of
the protocols: which types a clipboard is advertised under, how contents are cut into chunks and
put together again, which fetch is answered next, what the source of a drag is told. A step never
talks to the X server. It takes an event or a reply and returns the requests that have to be sent.

- `selection`, `hint`, `atoms`: selections, the types to which their owners convert them, and what
  these types stand for.
- `data`, `text`, `bytes`: text, lists of URIs and numbers as bytes, in both directions.
- `protocol`: the events and requests of the X protocol, as plain values.
- `id`, `drag`, `clipboard`, `incr`: identifiers, a drag operation, one clipboard, and a transfer
  in chunks.
- `transfer`: the state as a whole, with the steps of a drag (`dnd`), of owning clipboards
  (`ownership`), of pasting (`paste`), of copying (`copy`) and of moving chunks (`chunks`), and
  what holds of whole transfers (`laws`).

`app/` is ordinary Rust around the library: it talks to the X server and implements the traits by
which an application sees a transfer. `tests/` holds the tests of the library.
