# conversation_surface

Which conversation does the next query of a terminal surface go to, and what
becomes of a prompt on its way there? This library decides that for GUI terminal
views and for TUI surfaces, and it is verified with Verus.

The models do no I/O. They read the world from an `AppContext` that the caller
fills with plain values, and they append what they want done to a list of effects.
Where something outside has to answer first, they return a step that says what to
do and where to hand the answer.

| Module | Content |
| --- | --- |
| `ids` | identifiers of surfaces and conversations, and their texts |
| `text` | digits, joined lines |
| `context` | what the models read of the world |
| `events` | what the models are told, and what they tell |
| `surface`, `surface_laws` | the target of the next query of a surface |
| `conversation_model`, `conversation_laws` | selecting, starting, restoring and prompting conversations of a TUI |
| `prompt_stream`, `prompt_stream_laws` | the answer to one prompt on standard output |
| `tui_args` | the arguments of the TUI frontend |

The `*_laws` modules hold no executable code. They state, as proof functions, what
holds of the models whatever is done to them.

`app/` carries the decisions out, by way of the services of an application.
