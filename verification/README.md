# routecode_ui

The terminal user interface of RouteCode, with its logic verified by Verus.

- `src/` is the verified library. Each step of the interface is a function
  from the state (`state::App`) and an event to the next state and a list of
  `keys::Effect`s, the outside work that the caller performs in order:
  - `events` (with `keys`, `enter`, `shortcuts`): key presses;
  - `mouse`: the mouse and the animation clock;
  - `stream`: the chunks that a generation streams back;
  - `models`: switching models, recent models and favourites;
  - `chat`, `markdown`, `style`: the chat history drawn as styled lines;
  - `layout`, `render`, `frame`: widths, wrapping, what lies under the mouse,
    the chat view with its scrolling, the status line and the dialogs;
  - `menu`: moving the selection of menus with section headers;
  - `textbox`: the `tui_textarea` text boxes, through which the input is
    filled and cleared;
  - `laws`: properties that relate several steps.
- `app/` is the front end around it: the event loop, the text box widgets,
  the clipboard, the configuration, the generation task and the drawing with
  `ratatui`.
- `tests/` runs the library on concrete states.
