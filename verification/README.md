# rpg_chat_sandbox

A small role-playing sandbox in which the player walks a tiled map and chats
with a blacksmith driven by a language model.

- `src/` is the verified library: the actors (`actor`), the index of map
  objects by their stable ids with the runtime overlays of moved and disabled
  entities (`game`), the characters and the rules by which their opinion of the
  player moves (`npc`), and the text operations these rules are phrased in
  (`text`). Positions, health and weights are floating-point values in the
  game; the library is generic over their type and never computes with them.
- `app/` is the program around it: the window and drawing loop, loading the
  map file, the chat with the model, and the serialised forms of items and
  tool arguments.
- `tests/` exercises the library on concrete values.
