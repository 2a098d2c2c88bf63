# poise_commands

The commands of a Discord bot: what they are made of, which rules they have to follow, how they are
registered, and which of them an event is for. The library in `src/` is written in Verus, and each
of its functions is proved to do what its contract says.

- `structs/` holds commands and storages of commands.
  - `command`, `command_storage`, `command_override`, `cloning`: the data.
  - `naming`: identifiers that two commands share.
  - `options`, `length`, `consistency`, `errors`: the checks and what they report.
  - `rules`: the rules in one place, and the proof that the checks report exactly what breaks them.
  - `qualified_names`: the full names of subcommands.
  - `registration`: application commands as Discord wants them.
  - `updateable`: shared data that can be replaced while others read it.
- `dispatch/` decides what an event is for.
  - `event`: the steps of handling an event.
  - `slash`: the search for the command of an interaction.
  - `run`: the steps of running a command and of an autocompletion.
- `names`: which names Discord accepts.
- `discord`: the builders of the `serenity` crate. `names`, `discord`, `cloning` and `updateable`
  are the only modules that call other crates or parts of the standard library on trust; each
  such function says what is believed of the call.

Callbacks are values of a type parameter `H`: the library decides which callback is to be called,
and the code around it, in `app/`, calls it. Data that only callbacks read, such as cooldowns, is
kept there too; a command holds handles to it.

Functions whose names start with `law_` state what holds of several functions together.
