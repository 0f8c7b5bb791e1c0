# flion

A Flutter embedder for Windows, and the tool that builds and runs applications with it.

The library in `src/` holds the decisions: what a window message leads to, in which steps a frame
is put on the screen, which tasks are run when, who handles a key event, what the build tool
fetches, compiles and copies. Each of its functions has a contract that [Verus] proves, but for the
few that call into other crates or into parts of the standard library without a specification:
what is claimed of those calls stands in their doc comments and is taken on trust.

The program in `app/` holds what the decisions are about: windows, Direct3D, the C interface of
the engine, files, downloads and commands. It asks the library what to do, and does it.

| Modules | About |
| --- | --- |
| `window`, `key_messages`, `events`, `flags`, `utf16` | the messages of a window, and the events that they amount to |
| `pointer`, `keyboard`, `text_input`, `mouse_cursor` | the way of an event to the engine, the framework and the text field |
| `compositor`, `platform_views`, `views`, `resize_controller`, `egl`, `renderer` | the composition of frames |
| `engine`, `flion_engine`, `registry`, `standard_method_channel`, `settings` | the engine and its messages |
| `task_runner`, `render_thread` | tasks and threads |
| `build_tool`, `plugins`, `plugin_registrant`, `documents` | the build tool |
| `chars`, `utf8_text`, `small_string`, `error_utils` | texts and results |

[Verus]: https://github.com/verus-lang/verus
