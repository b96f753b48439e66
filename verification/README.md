# vulkan_command

Records graphics commands into Vulkan command buffers.

`src/` decides which device calls carry a command out and with which arguments.
Every function there has a contract. Verus proves all of them but those of the
small wrappers in `vk` and `small`: these take a constant from `ash` or call a
method of `smallvec`, and Verus believes what they claim of it. `app/` issues the
device calls through `ash`.

- `hal`: what a caller asks for (barriers, regions, clears, ranges).
- `native`: handles of Vulkan objects.
- `vk`: the values that Vulkan's command functions take.
- `conv`, `regions`, `clear`, `barrier`: from the first to the last of these.
- `small`: lists that stay on the stack while they are short, held by `smallvec`.
- `constants`: push constants as bytes.
- `call`: device calls as values, and what their outcome means.
- `command`: the command buffer.
- `laws`: what holds across commands.

A command whose range ends before it starts, or whose clear names an aspect that
its value does not have, is not accepted: `requires` says so in the library, and
`app/` stops on it.
