# app-boilerplate-rust

The screens and the command loop of a small device application, verified with Verus.

- `src/` decides: what is drawn (`canvas`, `keyboard`, `nav`, `demo`), what a received
  packet means (`seph`), how a command is read and answered (`apdu`), and what comes next
  (`app_loop`). `c_text` holds texts in the form in which C code reads them, and `counts`
  narrows counts to the widths of the device's toolkit.
- `app/` does: it draws with the device's toolkit, receives packets, and carries out the
  tasks of the main loop. The command handlers and the menu implement `AppModules`, and
  `entry_point!` makes an implementation the application that the device starts.
- `tests/` runs the library on concrete values.

Each screen follows one pattern. `show` consumes the builder and gives a screen. The driver
asks the screen for its `Turn` before every reception (`poll`) and after it (`received`),
and passes the toolkit's callbacks on to it.

The public proof functions named `law_*` state what holds across functions and calls.
