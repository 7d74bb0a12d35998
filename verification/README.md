# tacky-borders

Customizable borders around windows, as a library that decides and a program that acts.

The library (`src/`) decides: which windows get a border, what each event does to it, how bursts of
events are thinned out, what is drawn, how the configuration is read again, how commands are
understood and answered. It is written in Verus, and every function states what it returns or
changes. It never calls the system. Where the system has to act, a function returns what is to be
done, and another takes what came of it.

The program (`app/`) asks the system, performs what the library returns and brings back the answers.
It also finds the rule of the configuration that a window matches, by its title, class or process.
It runs as the border daemon on Windows; elsewhere it can only send commands. It draws
every border straight to its window, by the library's plan for the legacy renderer, whichever
renderer the configuration names. The plans for the V2 renderer and its effects are the library's
alone, and effects do not show.

## Where to look

| Module | Subject |
| --- | --- |
| `border_registry`, `window_snapshot` | which borders there are, and which there should be |
| `border_runtime`, `runtime_model` | what commands, events and timers do to them |
| `runtime_laws` | what holds of the runtime as a whole |
| `runtime_requests`, `coalescing`, `graphics` | how requests reach the runtime, and how many of them |
| `config`, `config_reload`, `config_watcher`, `theme` | settings, and when they are read again |
| `border_config`, `border_drawer`, `animations` | how one border looks and is drawn |
| `ipc`, `cli`, `komorebi`, `json`, `text` | what others say to the program, and what it answers |
| `event_hook`, `sys_tray_icon` | what window events and menu entries ask for |

The functions named `law_...` state what holds across several calls. They are proved from the same
descriptions that the contracts of the functions use.

Floating point stays in `app/`. The library carries such numbers as their bits and compares them.
